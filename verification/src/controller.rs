//! Per-channel control algorithm: curve interpolation, dead-area
//! clamping and cooling hysteresis.

use vstd::prelude::*;

verus! {

/// Duty value written to one output channel.
pub type PortValue = u8;

/// One point of a piecewise-linear temperature-to-duty curve.
/// Temperatures are whole degrees.
#[derive(Clone, Copy)]
pub struct CurvePoint {
    pub temp: i32,
    pub value: PortValue,
}

/// How a value caught strictly inside a dead area is remapped.
#[derive(Clone, Copy)]
pub enum DeadAreaVariant {
    Min,
    Max,
    Center,
}

/// A band of duty values the output is not allowed to rest within.
#[derive(Clone, Copy)]
pub struct DeadArea {
    pub min_value: PortValue,
    pub max_value: PortValue,
    pub variant: DeadAreaVariant,
}

/// What one dead area does to a candidate value: a value strictly
/// inside the band snaps to a bound, anything else passes unchanged.
pub open spec fn spec_apply_dead_area(v: int, a: DeadArea) -> int {
    if a.min_value < v < a.max_value {
        match a.variant {
            DeadAreaVariant::Min => a.min_value as int,
            DeadAreaVariant::Max => a.max_value as int,
            DeadAreaVariant::Center => {
                if 2 * (v - a.min_value) >= a.max_value - a.min_value {
                    a.max_value as int
                } else {
                    a.min_value as int
                }
            },
        }
    } else {
        v
    }
}

/// Dead areas apply in configured order, each pass working on the
/// value produced by the previous pass (a left fold).
pub open spec fn spec_apply_dead_areas(v: int, areas: Seq<DeadArea>) -> int
    decreases areas.len(),
{
    if areas.len() == 0 {
        v
    } else {
        spec_apply_dead_areas(spec_apply_dead_area(v, areas[0]), areas.skip(1))
    }
}

/// A value at or outside a dead area's bounds passes that area unchanged.
pub proof fn lemma_dead_area_outside(v: int, a: DeadArea)
    requires
        v <= a.min_value || v >= a.max_value,
    ensures
        spec_apply_dead_area(v, a) == v,
{
}

/// A value strictly inside a Min area snaps to its lower bound; strictly
/// inside a Max area, to its upper bound.
pub proof fn lemma_dead_area_inside(v: int, a: DeadArea)
    requires
        a.min_value < v < a.max_value,
    ensures
        a.variant is Min ==> spec_apply_dead_area(v, a) == a.min_value,
        a.variant is Max ==> spec_apply_dead_area(v, a) == a.max_value,
{
}

/// A value strictly inside a Center area snaps to whichever bound is
/// nearer, and to the upper bound when both are equally near.
pub proof fn lemma_dead_area_center(v: int, a: DeadArea)
    requires
        a.min_value < v < a.max_value,
        a.variant is Center,
    ensures
        v - a.min_value < a.max_value - v ==> spec_apply_dead_area(v, a) == a.min_value,
        v - a.min_value > a.max_value - v ==> spec_apply_dead_area(v, a) == a.max_value,
        v - a.min_value == a.max_value - v ==> spec_apply_dead_area(v, a) == a.max_value,
{
}

/// A curve is kept in strictly ascending temperature order; interpolation
/// is well defined only then.
pub open spec fn spec_curve_sorted(curve: Seq<CurvePoint>) -> bool {
    forall|i: int, j: int| 0 <= i < j < curve.len() ==> curve[i].temp < curve[j].temp
}

/// Each point below its successor orders the whole curve.
proof fn lemma_adjacent_implies_sorted(curve: Seq<CurvePoint>, i: int, j: int)
    requires
        forall|k: int| 0 <= k < curve.len() - 1 ==> #[trigger] curve[k].temp < curve[k + 1].temp,
        0 <= i < j < curve.len(),
    ensures
        curve[i].temp < curve[j].temp,
    decreases j - i,
{
    if j > i + 1 {
        lemma_adjacent_implies_sorted(curve, i, j - 1);
    }
}

/// Whether a curve is in strictly ascending temperature order; checked
/// before a configuration is driven.
pub fn curve_is_sorted(curve: &Vec<CurvePoint>) -> (r: bool)
    ensures
        r == spec_curve_sorted(curve@),
{
    let mut i: usize = 0;
    if curve.len() == 0 {
        return true;
    }
    while i < curve.len() - 1
        invariant
            curve@.len() >= 1,
            i <= curve@.len() - 1,
            forall|k: int| 0 <= k < i ==> #[trigger] curve@[k].temp < curve@[k + 1].temp,
        decreases curve@.len() - i,
    {
        if curve[i].temp >= curve[i + 1].temp {
            return false;
        }
        i = i + 1;
    }
    proof {
        assert forall|a: int, b: int| 0 <= a < b < curve@.len() implies curve@[a].temp
            < curve@[b].temp by {
            lemma_adjacent_implies_sorted(curve@, a, b);
        }
    }
    true
}

/// Whether a channel configuration can be driven by the control algorithm.
pub fn plug_config_is_valid(config: &PlugConfig) -> (r: bool)
    ensures
        r == spec_plug_config_valid(*config),
{
    curve_is_sorted(&config.curve)
}

/// Exact linear interpolation between (t0, v0) and (t1, v1) at temp,
/// truncated to an integer: the whole part of
/// v0 + (temp - t0) * (v1 - v0) / (t1 - t0), written over one division.
pub open spec fn spec_interp(t0: int, v0: int, t1: int, v1: int, temp: int) -> int {
    (v0 * (t1 - t0) + (temp - t0) * (v1 - v0)) / (t1 - t0)
}

/// The duty value an ascending curve yields for a temperature: the first
/// point's value at or below the first point, the last point's value at or
/// above the last point, and truncated linear interpolation between the two
/// bracketing points in between. An empty curve yields 0.
pub open spec fn spec_curve_value(curve: Seq<CurvePoint>, temp: int) -> int
    decreases curve.len(),
{
    if curve.len() == 0 {
        0
    } else if temp <= curve[0].temp {
        curve[0].value as int
    } else if curve.len() == 1 {
        curve[0].value as int
    } else if temp <= curve[1].temp {
        spec_interp(curve[0].temp as int, curve[0].value as int, curve[1].temp as int, curve[1].value as int, temp)
    } else {
        spec_curve_value(curve.skip(1), temp)
    }
}

/// The interpolation numerator stays within [0, 255 * (t1 - t0)] when both
/// endpoint values are duty values, so the truncated quotient is a duty value.
pub proof fn lemma_interp_bounds(t0: int, v0: int, t1: int, v1: int, temp: int)
    requires
        t0 < temp <= t1,
        0 <= v0 <= 255,
        0 <= v1 <= 255,
    ensures
        0 <= v0 * (t1 - t0) + (temp - t0) * (v1 - v0) <= 255 * (t1 - t0),
        0 <= spec_interp(t0, v0, t1, v1, temp) <= 255,
{
    let den = t1 - t0;
    let a = temp - t0;
    let d = v1 - v0;
    assert(0 <= v0 * den + a * d <= 255 * den) by (nonlinear_arith)
        requires
            0 < a <= den,
            0 <= v0 <= 255,
            0 <= v0 + d <= 255,
    ;
    assert(0 <= (v0 * den + a * d) / den <= 255) by (nonlinear_arith)
        requires
            0 < den,
            0 <= v0 * den + a * d <= 255 * den,
    ;
}

/// Interpolating exactly at the right end of a bracket yields that point's
/// value.
pub proof fn lemma_interp_at_right(t0: int, v0: int, t1: int, v1: int)
    requires
        t0 < t1,
    ensures
        spec_interp(t0, v0, t1, v1, t1) == v1,
{
    let den = t1 - t0;
    assert(v0 * den + den * (v1 - v0) == v1 * den) by (nonlinear_arith);
    assert(v1 * den / den == v1) by (nonlinear_arith)
        requires
            0 < den,
    ;
}

/// At or below the first point of a curve the curve yields the first
/// point's value.
pub proof fn lemma_curve_value_low(curve: Seq<CurvePoint>, temp: int)
    requires
        curve.len() >= 1,
        temp <= curve[0].temp,
    ensures
        spec_curve_value(curve, temp) == curve[0].value,
{
}

/// At or above the last point of an ascending curve the curve yields the
/// last point's value.
pub proof fn lemma_curve_value_high(curve: Seq<CurvePoint>, temp: int)
    requires
        spec_curve_sorted(curve),
        curve.len() >= 1,
        temp > curve[0].temp,
        temp >= curve[curve.len() - 1].temp,
    ensures
        spec_curve_value(curve, temp) == curve[curve.len() - 1].value,
    decreases curve.len(),
{
    if curve.len() == 1 {
    } else if temp <= curve[1].temp {
        assert(curve.len() == 2);
        assert(temp == curve[1].temp);
        lemma_interp_at_right(
            curve[0].temp as int,
            curve[0].value as int,
            curve[1].temp as int,
            curve[1].value as int,
        );
    } else {
        let rest = curve.skip(1);
        assert(forall|i: int| 0 <= i < rest.len() ==> rest[i] == curve[i + 1]);
        lemma_curve_value_high(rest, temp);
    }
}

/// Between two adjacent points of an ascending curve the curve yields the
/// truncated linear interpolation over exactly that bracket.
pub proof fn lemma_curve_value_bracket(curve: Seq<CurvePoint>, i: int, temp: int)
    requires
        spec_curve_sorted(curve),
        0 <= i < curve.len() - 1,
        curve[i].temp < temp <= curve[i + 1].temp,
    ensures
        spec_curve_value(curve, temp) == spec_interp(
            curve[i].temp as int,
            curve[i].value as int,
            curve[i + 1].temp as int,
            curve[i + 1].value as int,
            temp,
        ),
    decreases curve.len(),
{
    if i == 0 {
    } else {
        let rest = curve.skip(1);
        assert(forall|j: int| 0 <= j < rest.len() ==> rest[j] == curve[j + 1]);
        lemma_curve_value_bracket(rest, i - 1, temp);
    }
}

/// Remap a candidate value through one dead area.
pub fn apply_dead_area(v: PortValue, a: &DeadArea) -> (r: PortValue)
    ensures
        r == spec_apply_dead_area(v as int, *a),
{
    if a.min_value < v && v < a.max_value {
        match a.variant {
            DeadAreaVariant::Min => a.min_value,
            DeadAreaVariant::Max => a.max_value,
            DeadAreaVariant::Center => {
                let span = a.max_value - a.min_value;
                if 2 * ((v - a.min_value) as u16) >= span as u16 {
                    a.max_value
                } else {
                    a.min_value
                }
            },
        }
    } else {
        v
    }
}

/// Cooling-hysteresis configuration and its runtime sub-state. Times are
/// milliseconds on the caller's monotonic clock; deltas are whole degrees.
#[derive(Clone, Copy)]
pub struct CoolHolderData {
    pub holding_time: u64,
    pub on_delta: u8,
    pub off_delta: u8,
    pub start_time: Option<u64>,
    pub is_holding: bool,
}

/// Runtime state of one channel: the duty value last written and the
/// temperature last acted on.
#[derive(Clone, Copy)]
pub struct PlugState {
    pub plug_value: PortValue,
    pub last_temp: i32,
}

/// Per-channel configuration: an ascending curve, ordered dead areas and an
/// optional cooling hold.
pub struct PlugConfig {
    pub curve: Vec<CurvePoint>,
    pub dead_areas: Vec<DeadArea>,
    pub cool_holder: Option<CoolHolderData>,
}

impl Clone for PlugConfig {
    fn clone(&self) -> (r: Self)
        ensures
            r.curve@ == self.curve@,
            r.dead_areas@ == self.dead_areas@,
            r.cool_holder == self.cool_holder,
    {
        let mut curve: Vec<CurvePoint> = Vec::new();
        let mut i: usize = 0;
        while i < self.curve.len()
            invariant
                i <= self.curve@.len(),
                curve@ == self.curve@.take(i as int),
            decreases self.curve@.len() - i,
        {
            curve.push(self.curve[i]);
            assert(curve@ =~= self.curve@.take(i as int + 1));
            i = i + 1;
        }
        let mut dead_areas: Vec<DeadArea> = Vec::new();
        let mut j: usize = 0;
        while j < self.dead_areas.len()
            invariant
                j <= self.dead_areas@.len(),
                dead_areas@ == self.dead_areas@.take(j as int),
            decreases self.dead_areas@.len() - j,
        {
            dead_areas.push(self.dead_areas[j]);
            assert(dead_areas@ =~= self.dead_areas@.take(j as int + 1));
            j = j + 1;
        }
        assert(curve@ =~= self.curve@);
        assert(dead_areas@ =~= self.dead_areas@);
        PlugConfig { curve, dead_areas, cool_holder: self.cool_holder }
    }
}

/// What a channel handler is bound to: the channel index on its device, the
/// device's polling interval in milliseconds, and the sensor it reads.
pub struct PlugExternals {
    pub plug_index: u8,
    pub update_time: u64,
    pub sensor: crate::sensors::SensorId,
}

/// A channel's configuration is usable by the control algorithm when its
/// curve is strictly ascending.
pub open spec fn spec_plug_config_valid(c: PlugConfig) -> bool {
    spec_curve_sorted(c.curve@)
}

/// The duty value one idle tick computes: the curve value, passed through
/// every dead area in order.
pub open spec fn spec_normal_value(c: PlugConfig, temp: int) -> int {
    spec_apply_dead_areas(spec_curve_value(c.curve@, temp), c.dead_areas@)
}

/// The duty value one holding tick computes: the pinned previous value,
/// passed through every dead area in order.
pub open spec fn spec_pinned_value(c: PlugConfig, pinned: int) -> int {
    spec_apply_dead_areas(pinned, c.dead_areas@)
}

/// A temperature has dropped enough (by more than on_delta) below the last
/// acted-on temperature to enter a cooling hold.
pub open spec fn spec_enters_hold(h: CoolHolderData, last_temp: int, temp: int) -> bool {
    temp + h.on_delta < last_temp
}

/// A hold ends when its duration is exceeded.
pub open spec fn spec_hold_expired(h: CoolHolderData, start: int, now: int) -> bool {
    now - start > h.holding_time
}

/// A hold ends when the temperature has recovered enough (by more than
/// off_delta) above the last acted-on temperature.
pub open spec fn spec_hold_released(h: CoolHolderData, last_temp: int, temp: int) -> bool {
    temp - h.off_delta > last_temp
}

/// Remap a candidate value through every dead area, in configured order.
pub fn apply_dead_areas(v: PortValue, areas: &Vec<DeadArea>) -> (r: PortValue)
    ensures
        r == spec_apply_dead_areas(v as int, areas@),
{
    let mut current = v;
    let mut i: usize = 0;
    assert(areas@.skip(0) =~= areas@);
    while i < areas.len()
        invariant
            i <= areas@.len(),
            spec_apply_dead_areas(v as int, areas@) == spec_apply_dead_areas(
                current as int,
                areas@.skip(i as int),
            ),
        decreases areas@.len() - i,
    {
        assert(areas@.skip(i as int)[0] == areas@[i as int]);
        assert(areas@.skip(i as int).skip(1) =~= areas@.skip(i as int + 1));
        current = apply_dead_area(current, &areas[i]);
        i = i + 1;
    }
    current
}

/// Binds one channel's configuration and runtime state to a (channel index,
/// sensor) pair on a device. Created when the channel is configured.
pub struct PlugHandler {
    pub plug_state: PlugState,
    pub plug_externals: PlugExternals,
    pub plug_config: PlugConfig,
}

impl PlugHandler {
    /// Builds a handler for one channel. The device must be reachable: the
    /// caller passes the channel values it currently reports, and the
    /// channel's current value becomes the initial state. Fails when the
    /// index does not address a reported channel.
    pub fn new(
        plug_index: u8,
        plugs_values: &Vec<PortValue>,
        update_time: u64,
        sensor: crate::sensors::SensorId,
        plug_config: PlugConfig,
    ) -> (r: Result<Self, String>)
        ensures
            plug_index < plugs_values@.len() ==> (r matches Ok(h) && {
                &&& h.plug_state == (PlugState {
                    plug_value: plugs_values@[plug_index as int],
                    last_temp: 0,
                })
                &&& h.plug_externals.plug_index == plug_index
                &&& h.plug_externals.update_time == update_time
                &&& h.plug_externals.sensor == sensor
                &&& h.plug_config == plug_config
            }),
            plug_index >= plugs_values@.len() ==> (r matches Err(e) && e@
                == "Plug index out of range"@),
    {
        if (plug_index as usize) < plugs_values.len() {
            let plug_value = plugs_values[plug_index as usize];
            Ok(PlugHandler {
                plug_state: PlugState { plug_value, last_temp: 0 },
                plug_externals: PlugExternals { plug_index, update_time, sensor },
                plug_config,
            })
        } else {
            Err("Plug index out of range".to_owned())
        }
    }

    /// The channel's current runtime state.
    pub fn get_state(&self) -> (r: PlugState)
        ensures
            r == self.plug_state,
    {
        self.plug_state
    }

    /// Replaces the channel's configuration; runtime state is kept.
    pub fn set_config(&mut self, plug_config: PlugConfig)
        ensures
            final(self).plug_config == plug_config,
            final(self).plug_state == old(self).plug_state,
            final(self).plug_externals == old(self).plug_externals,
    {
        self.plug_config = plug_config;
    }

    /// Points the channel at another sensor; everything else is kept.
    pub fn set_sensor(&mut self, sensor: crate::sensors::SensorId)
        ensures
            final(self).plug_externals.sensor == sensor,
            final(self).plug_externals.plug_index == old(self).plug_externals.plug_index,
            final(self).plug_externals.update_time == old(self).plug_externals.update_time,
            final(self).plug_state == old(self).plug_state,
            final(self).plug_config == old(self).plug_config,
    {
        self.plug_externals.sensor = sensor;
    }

    /// Evaluates an ascending curve at a temperature: the first point's
    /// value at or below the first point, the last point's value at or
    /// above the last point, truncated linear interpolation in between,
    /// and 0 for an empty curve.
    pub fn calculate_curve(curve: &Vec<CurvePoint>, temp: i32) -> (r: PortValue)
        requires
            spec_curve_sorted(curve@),
        ensures
            r == spec_curve_value(curve@, temp as int),
    {
        if curve.len() == 0 {
            return 0;
        }
        if temp <= curve[0].temp {
            return curve[0].value;
        }
        if temp >= curve[curve.len() - 1].temp {
            proof {
                lemma_curve_value_high(curve@, temp as int);
            }
            return curve[curve.len() - 1].value;
        }
        let ghost whole = curve@;
        let mut i: usize = 0;
        assert(whole.skip(0) =~= whole);
        while i < curve.len() - 1
            invariant
                spec_curve_sorted(whole),
                whole == curve@,
                2 <= whole.len(),
                i < whole.len() - 1,
                temp > whole[i as int].temp,
                temp < whole[whole.len() - 1].temp,
                spec_curve_value(whole, temp as int) == spec_curve_value(
                    whole.skip(i as int),
                    temp as int,
                ),
            decreases whole.len() - i,
        {
            let ghost rest = whole.skip(i as int);
            assert(forall|k: int| 0 <= k < rest.len() ==> rest[k] == whole[i + k]);
            if temp <= curve[i + 1].temp {
                let t0 = curve[i].temp;
                let v0 = curve[i].value;
                let t1 = curve[i + 1].temp;
                let v1 = curve[i + 1].value;
                let den: i64 = (t1 as i64) - (t0 as i64);
                proof {
                    lemma_interp_bounds(t0 as int, v0 as int, t1 as int, v1 as int, temp as int);
                    assert((v0 as int) * (den as int) <= 255 * 0xffff_ffff) by (nonlinear_arith)
                        requires
                            0 <= v0 <= 255,
                            0 < den <= 0xffff_ffff,
                    ;
                    assert(((temp as int) - (t0 as int)) * ((v1 as int) - (v0 as int)) <= 0xffff_ffff
                        * 255 && ((temp as int) - (t0 as int)) * ((v1 as int) - (v0 as int)) >= -(
                    0xffff_ffff * 255)) by (nonlinear_arith)
                        requires
                            0 < (temp as int) - (t0 as int) <= 0xffff_ffff,
                            -255 <= (v1 as int) - (v0 as int) <= 255,
                    ;
                }
                let num: i64 = (v0 as i64) * den + ((temp as i64) - (t0 as i64)) * ((v1 as i64)
                    - (v0 as i64));
                let q: u64 = (num as u64) / (den as u64);
                assert(q == spec_interp(t0 as int, v0 as int, t1 as int, v1 as int, temp as int));
                return q as u8;
            }
            assert(spec_curve_value(rest, temp as int) == spec_curve_value(
                rest.skip(1),
                temp as int,
            ));
            assert(rest.skip(1) =~= whole.skip(i as int + 1));
            i = i + 1;
        }
        proof {
            assert(false);
        }
        curve[curve.len() - 1].value
    }

    /// One control tick. The caller supplies the sensor reading and the
    /// current time on a monotonic millisecond clock; the returned value, if
    /// any, is the duty value to write to the channel. No value is returned
    /// on the tick that enters a cooling hold and on the tick that leaves
    /// one; those ticks change only the hold sub-state.
    pub fn calculate_speed(&mut self, current_temp: i32, now: u64) -> (write: Option<PortValue>)
        requires
            spec_plug_config_valid(old(self).plug_config),
            match old(self).plug_config.cool_holder {
                Some(h) => match h.start_time {
                    Some(s) => now >= s,
                    None => true,
                },
                None => true,
            },
        ensures
            final(self).plug_externals == old(self).plug_externals,
            final(self).plug_config.curve@ == old(self).plug_config.curve@,
            final(self).plug_config.dead_areas@ == old(self).plug_config.dead_areas@,
            ({
                let cfg = old(self).plug_config;
                let st = old(self).plug_state;
                match cfg.cool_holder {
                    None => {
                        &&& final(self).plug_config.cool_holder is None
                        &&& final(self).plug_state.plug_value == spec_normal_value(
                            cfg,
                            current_temp as int,
                        )
                        &&& final(self).plug_state.last_temp == current_temp
                        &&& write matches Some(v) && v == spec_normal_value(
                            cfg,
                            current_temp as int,
                        )
                    },
                    Some(h) => {
                        if h.is_holding {
                            match h.start_time {
                                Some(s) => {
                                    if spec_hold_expired(h, s as int, now as int)
                                        || spec_hold_released(
                                        h,
                                        st.last_temp as int,
                                        current_temp as int,
                                    ) {
                                        &&& final(self).plug_config.cool_holder == Some(
                                            (CoolHolderData { is_holding: false, ..h }),
                                        )
                                        &&& final(self).plug_state == st
                                        &&& write is None
                                    } else {
                                        &&& final(self).plug_config.cool_holder == cfg.cool_holder
                                        &&& final(self).plug_state.plug_value == spec_pinned_value(
                                            cfg,
                                            st.plug_value as int,
                                        )
                                        &&& final(self).plug_state.last_temp == current_temp
                                        &&& write matches Some(v) && v == spec_pinned_value(
                                            cfg,
                                            st.plug_value as int,
                                        )
                                    }
                                },
                                None => {
                                    &&& final(self).plug_config.cool_holder == Some(
                                        (CoolHolderData { start_time: Some(now), ..h }),
                                    )
                                    &&& final(self).plug_state.plug_value == spec_pinned_value(
                                        cfg,
                                        st.plug_value as int,
                                    )
                                    &&& final(self).plug_state.last_temp == current_temp
                                    &&& write matches Some(v) && v == spec_pinned_value(
                                        cfg,
                                        st.plug_value as int,
                                    )
                                },
                            }
                        } else if spec_enters_hold(h, st.last_temp as int, current_temp as int) {
                            &&& final(self).plug_config.cool_holder == Some(
                                (CoolHolderData {
                                    is_holding: true,
                                    start_time: Some(now),
                                    ..h
                                }),
                            )
                            &&& final(self).plug_state == st
                            &&& write is None
                        } else {
                            &&& final(self).plug_config.cool_holder == cfg.cool_holder
                            &&& final(self).plug_state.plug_value == spec_normal_value(
                                cfg,
                                current_temp as int,
                            )
                            &&& final(self).plug_state.last_temp == current_temp
                            &&& write matches Some(v) && v == spec_normal_value(
                                cfg,
                                current_temp as int,
                            )
                        }
                    },
                }
            }),
    {
        let last_temp = self.plug_state.last_temp;
        let calculated: PortValue;
        match self.plug_config.cool_holder {
            Some(h) => {
                if h.is_holding {
                    match h.start_time {
                        Some(s) => {
                            if now - s > h.holding_time {
                                self.plug_config.cool_holder = Some(
                                    CoolHolderData { is_holding: false, ..h },
                                );
                                return None;
                            }
                            if (current_temp as i64) - (h.off_delta as i64) > (last_temp as i64) {
                                self.plug_config.cool_holder = Some(
                                    CoolHolderData { is_holding: false, ..h },
                                );
                                return None;
                            }
                            calculated = self.plug_state.plug_value;
                        },
                        None => {
                            self.plug_config.cool_holder = Some(
                                CoolHolderData { start_time: Some(now), ..h },
                            );
                            calculated = self.plug_state.plug_value;
                        },
                    }
                } else if (current_temp as i64) + (h.on_delta as i64) < (last_temp as i64) {
                    self.plug_config.cool_holder = Some(
                        CoolHolderData { is_holding: true, start_time: Some(now), ..h },
                    );
                    return None;
                } else {
                    calculated = Self::calculate_curve(&self.plug_config.curve, current_temp);
                }
            },
            None => {
                calculated = Self::calculate_curve(&self.plug_config.curve, current_temp);
            },
        }
        let result = apply_dead_areas(calculated, &self.plug_config.dead_areas);
        self.plug_state.plug_value = result;
        self.plug_state.last_temp = current_temp;
        Some(result)
    }
}

} // verus!
