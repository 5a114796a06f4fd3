use vstd::prelude::*;
use vstd::string::StringExecFns;

verus! {

/// An exact rational number `num / den`; the controllers below always hand
/// out a positive denominator.
#[derive(Clone, Copy, Debug)]
pub struct Fraction {
    pub num: i128,
    pub den: i128,
}

/// One setpoint of a controller: the open input interval in which it stays
/// selected and the output it produces.  All three numbers are scaled by
/// the controller's scale factor, so that the interval bounds and the
/// output are exact.
#[derive(Clone, Copy, Debug)]
pub struct Setpoint {
    pub input_range: [i128; 2],
    pub output: i128,
}

/// Maps an input value to one of several outputs.  The selected setpoint is
/// kept as long as the input stays inside its interval; the intervals of
/// neighbouring setpoints overlap, which gives the hysteresis.
pub struct MultiSetpointHysteresis {
    setpoints: Vec<Setpoint>,
    scale: i128,
    last_index: usize,
}

/// Builds a [`MultiSetpointHysteresis`] whose inner setpoints are spaced
/// evenly between an input start and stop value.
pub struct LinspaceBuilder {
    in_start: i64,
    in_stop: i64,
    out_low: i64,
    out_start: i64,
    out_stop: i64,
    out_high: i64,
    num_points: i32,
    hysteresis: i64,
    min: i64,
    max: i64,
}

/// The parameters held by a [`LinspaceBuilder`].
pub struct LinspaceParams {
    pub in_start: int,
    pub in_stop: int,
    pub out_low: int,
    pub out_start: int,
    pub out_stop: int,
    pub out_high: int,
    pub num_points: int,
    pub hysteresis: int,
    pub min: int,
    pub max: int,
}

/// The state of a [`MultiSetpointHysteresis`].
pub struct HysteresisState {
    pub setpoints: Seq<Setpoint>,
    pub scale: int,
    pub last_index: int,
}

impl View for LinspaceBuilder {
    type V = LinspaceParams;

    closed spec fn view(&self) -> LinspaceParams {
        LinspaceParams {
            in_start: self.in_start as int,
            in_stop: self.in_stop as int,
            out_low: self.out_low as int,
            out_start: self.out_start as int,
            out_stop: self.out_stop as int,
            out_high: self.out_high as int,
            num_points: self.num_points as int,
            hysteresis: self.hysteresis as int,
            min: self.min as int,
            max: self.max as int,
        }
    }
}

impl View for MultiSetpointHysteresis {
    type V = HysteresisState;

    closed spec fn view(&self) -> HysteresisState {
        HysteresisState {
            setpoints: self.setpoints@,
            scale: self.scale as int,
            last_index: self.last_index as int,
        }
    }
}

/// The common denominator of all setpoints built for `num_points` points:
/// the number of gaps between the inner points.
pub open spec fn scale_for(num_points: int) -> int {
    if num_points > 2 {
        num_points - 2
    } else {
        1
    }
}

/// Lower bound of setpoint `i`, scaled by `scale_for(p.num_points)`.
pub open spec fn point_lower(p: LinspaceParams, i: int) -> int {
    let d = scale_for(p.num_points);
    if i == 0 {
        p.min * d
    } else if i == p.num_points - 1 {
        (p.in_stop - p.hysteresis) * d
    } else {
        p.in_start * d + (p.in_stop - p.in_start) * (i - 1) - p.hysteresis * d
    }
}

/// Upper bound of setpoint `i`, scaled by `scale_for(p.num_points)`.
pub open spec fn point_upper(p: LinspaceParams, i: int) -> int {
    let d = scale_for(p.num_points);
    if i == 0 {
        (p.in_start + p.hysteresis) * d
    } else if i == p.num_points - 1 {
        p.max * d
    } else {
        p.in_start * d + (p.in_stop - p.in_start) * i + p.hysteresis * d
    }
}

/// Output of setpoint `i`, scaled by `scale_for(p.num_points)`.
pub open spec fn point_output(p: LinspaceParams, i: int) -> int {
    let d = scale_for(p.num_points);
    if i == 0 {
        p.out_low * d
    } else if i == p.num_points - 1 {
        p.out_high * d
    } else {
        p.out_start * d + (p.out_stop - p.out_start) * i
    }
}

/// The parameters are accepted by [`LinspaceBuilder::build`].
pub open spec fn params_valid(p: LinspaceParams) -> bool {
    &&& p.num_points >= 2
    &&& p.hysteresis >= 0
    &&& p.in_start < p.in_stop
}

/// A setpoint holds `x` (a scaled input) strictly inside its interval.
pub open spec fn holds(sp: Setpoint, x: int) -> bool {
    sp.input_range[0] < x && x < sp.input_range[1]
}

/// Some setpoint of `s` holds `value`.
pub open spec fn covers(s: HysteresisState, value: int) -> bool {
    exists|j: int| 0 <= j < s.setpoints.len() && holds(#[trigger] s.setpoints[j], value * s.scale)
}

/// Index of the first setpoint at or after `k` that holds `x`, or the
/// number of setpoints if there is none.
pub open spec fn first_holding(points: Seq<Setpoint>, x: int, k: int) -> int
    decreases points.len() - k,
{
    if k < 0 || k >= points.len() {
        points.len() as int
    } else if holds(points[k], x) {
        k
    } else {
        first_holding(points, x, k + 1)
    }
}

/// The index selected for `value` in state `s`: the current one if it still
/// holds the value, otherwise the first one that does.
pub open spec fn selected_index(s: HysteresisState, value: int) -> int {
    if holds(s.setpoints[s.last_index], value * s.scale) {
        s.last_index
    } else {
        first_holding(s.setpoints, value * s.scale, 0)
    }
}

/// The state after processing `value`.
pub open spec fn next_state(s: HysteresisState, value: int) -> HysteresisState {
    HysteresisState { last_index: selected_index(s, value), ..s }
}

/// The (scaled) output produced for `value` in state `s`.
pub open spec fn next_output(s: HysteresisState, value: int) -> int {
    s.setpoints[selected_index(s, value)].output as int
}

/// The invariant every controller keeps: a positive scale and a selected
/// setpoint that exists.
pub open spec fn state_valid(s: HysteresisState) -> bool {
    &&& 1 <= s.scale
    &&& 0 <= s.last_index < s.setpoints.len()
}

/// A state as the builder leaves it for parameters `p`.
pub open spec fn built_from(s: HysteresisState, p: LinspaceParams) -> bool {
    &&& setpoints_from(s, p)
    &&& s.last_index == 0
}

/// The setpoints and scale of `s` are those built for parameters `p`;
/// processing keeps them.
pub open spec fn setpoints_from(s: HysteresisState, p: LinspaceParams) -> bool {
    &&& s.scale == scale_for(p.num_points)
    &&& s.setpoints.len() == p.num_points
    &&& forall|i: int|
        0 <= i < p.num_points ==> {
            &&& (#[trigger] s.setpoints[i]).input_range[0] == point_lower(p, i)
            &&& s.setpoints[i].input_range[1] == point_upper(p, i)
            &&& s.setpoints[i].output == point_output(p, i)
        }
}

proof fn lemma_mul_bound(x: int, k: int, bx: int, bk: int)
    requires
        -bx <= x <= bx,
        0 <= k <= bk,
    ensures
        -(bx * bk) <= x * k <= bx * bk,
{
    assert(-(bx * bk) <= x * k <= bx * bk) by (nonlinear_arith)
        requires
            -bx <= x <= bx,
            0 <= k <= bk,
    ;
}

proof fn lemma_first_holding_bounds(points: Seq<Setpoint>, x: int, k: int)
    requires
        0 <= k <= points.len(),
    ensures
        k <= first_holding(points, x, k) <= points.len(),
        first_holding(points, x, k) < points.len() ==> holds(
            points[first_holding(points, x, k)],
            x,
        ),
        forall|j: int| k <= j < first_holding(points, x, k) ==> !holds(#[trigger] points[j], x),
    decreases points.len() - k,
{
    if k < points.len() && !holds(points[k], x) {
        lemma_first_holding_bounds(points, x, k + 1);
    }
}

proof fn lemma_first_holding_found(points: Seq<Setpoint>, x: int, j: int)
    requires
        0 <= j < points.len(),
        holds(points[j], x),
    ensures
        first_holding(points, x, 0) <= j,
{
    lemma_first_holding_bounds(points, x, 0);
}

impl MultiSetpointHysteresis {
    #[verifier::type_invariant]
    spec fn inv(self) -> bool {
        &&& 1 <= self.scale <= i32::MAX
        &&& self.last_index < self.setpoints.len()
    }

    /// The common scale factor of all setpoint values.
    pub fn scale(&self) -> (r: i128)
        ensures
            r == self@.scale,
            1 <= r <= i32::MAX,
    {
        proof {
            use_type_invariant(self);
        }
        self.scale
    }

    /// The setpoints, in order.
    pub fn setpoints(&self) -> (r: &Vec<Setpoint>)
        ensures
            r@ == self@.setpoints,
    {
        &self.setpoints
    }

    /// Tells whether some setpoint holds `value`, that is whether
    /// [`Self::process`] accepts it.
    pub fn is_covered(&self, value: i64) -> (r: bool)
        ensures
            r == covers(self@, value as int),
    {
        proof {
            use_type_invariant(self);
        }
        let x = self.scaled(value);
        let mut i: usize = 0;
        while i < self.setpoints.len()
            invariant
                0 <= i <= self.setpoints.len(),
                x == value * self.scale,
                forall|k: int| 0 <= k < i ==> !holds(#[trigger] self.setpoints@[k], x as int),
            decreases self.setpoints.len() - i,
        {
            let sp = self.setpoints[i];
            if sp.input_range[0] < x && x < sp.input_range[1] {
                assert(holds(self@.setpoints[i as int], value * self@.scale));
                return true;
            }
            i = i + 1;
        }
        assert forall|j: int| 0 <= j < self@.setpoints.len() implies !holds(
            #[trigger] self@.setpoints[j],
            value * self@.scale,
        ) by {
            assert(!holds(self.setpoints@[j], x as int));
        }
        false
    }

    fn scaled(&self, value: i64) -> (r: i128)
        ensures
            r == value * self.scale,
    {
        proof {
            use_type_invariant(self);
            lemma_mul_bound(value as int, self.scale as int, 0x8000_0000_0000_0000, i32::MAX as int);
        }
        value as i128 * self.scale
    }

    /// Processes a new input value and returns the output of the selected
    /// setpoint, as the fraction `output / scale`.
    ///
    /// The current setpoint is kept while it holds the value; otherwise the
    /// first setpoint that holds it is selected.
    pub fn process(&mut self, value: i64) -> (r: Fraction)
        requires
            covers(old(self)@, value as int),
        ensures
            final(self)@ == next_state(old(self)@, value as int),
            r.num == next_output(old(self)@, value as int),
            r.den == old(self)@.scale,
            state_valid(final(self)@),
            0 <= selected_index(old(self)@, value as int) < old(self)@.setpoints.len(),
            holds(
                old(self)@.setpoints[selected_index(old(self)@, value as int)],
                value * old(self)@.scale,
            ),
    {
        proof {
            use_type_invariant(&*self);
        }
        let x = self.scaled(value);
        proof {
            use_type_invariant(&*self);
        }
        let last_point = self.setpoints[self.last_index];
        if last_point.input_range[0] < x && x < last_point.input_range[1] {
            return Fraction { num: last_point.output, den: self.scale };
        }
        let ghost s = self@;
        proof {
            let j = choose|j: int| 0 <= j < s.setpoints.len() && holds(#[trigger] s.setpoints[j], value * s.scale);
            lemma_first_holding_found(s.setpoints, x as int, j);
            lemma_first_holding_bounds(s.setpoints, x as int, 0);
        }
        let mut i: usize = 0;
        while i < self.setpoints.len()
            invariant
                0 <= i <= self.setpoints.len(),
                self@ == s,
                s == old(self)@,
                1 <= s.scale <= i32::MAX,
                0 <= s.last_index < s.setpoints.len(),
                x == value * s.scale,
                !holds(s.setpoints[s.last_index], x as int),
                i <= first_holding(s.setpoints, x as int, 0) < s.setpoints.len(),
                holds(s.setpoints[first_holding(s.setpoints, x as int, 0)], x as int),
                forall|k: int| 0 <= k < first_holding(s.setpoints, x as int, 0) ==> !holds(#[trigger] s.setpoints[k], x as int),
            decreases self.setpoints.len() - i,
        {
            let sp = self.setpoints[i];
            if sp.input_range[0] < x && x < sp.input_range[1] {
                assert(i == first_holding(s.setpoints, x as int, 0));
                self.last_index = i;
                return Fraction { num: sp.output, den: self.scale };
            }
            i = i + 1;
        }
        proof {
            assert(false);
        }
        Fraction { num: 0, den: 1 }
    }
}

impl LinspaceBuilder {
    /// A builder for inputs in the open range `min .. max`, with all other
    /// parameters zero.
    pub fn new(min: i64, max: i64) -> (r: Self)
        ensures
            r@.min == min,
            r@.max == max,
            r@.in_start == 0,
            r@.in_stop == 0,
            r@.out_low == 0,
            r@.out_start == 0,
            r@.out_stop == 0,
            r@.out_high == 0,
            r@.num_points == 0,
            r@.hysteresis == 0,
    {
        Self {
            in_start: 0,
            in_stop: 0,
            out_low: 0,
            out_start: 0,
            out_stop: 0,
            out_high: 0,
            num_points: 0,
            hysteresis: 0,
            min,
            max,
        }
    }

    /// Sets the input values of the first and the last inner setpoint.
    pub fn input_range(self, start: i64, stop: i64) -> (r: Self)
        ensures
            r@ == (LinspaceParams { in_start: start as int, in_stop: stop as int, ..self@ }),
    {
        let mut b = self;
        b.in_start = start;
        b.in_stop = stop;
        b
    }

    /// Sets the output below the input range (`low`), the outputs that the
    /// inner setpoints interpolate between (`start`, `stop`) and the output
    /// above the input range (`high`).
    pub fn output_range(self, low: i64, start: i64, stop: i64, high: i64) -> (r: Self)
        ensures
            r@ == (LinspaceParams {
                out_low: low as int,
                out_start: start as int,
                out_stop: stop as int,
                out_high: high as int,
                ..self@
            }),
    {
        let mut b = self;
        b.out_low = low;
        b.out_start = start;
        b.out_stop = stop;
        b.out_high = high;
        b
    }

    /// Sets the total number of setpoints.
    pub fn point_count(self, num: i32) -> (r: Self)
        ensures
            r@ == (LinspaceParams { num_points: num as int, ..self@ }),
    {
        let mut b = self;
        b.num_points = num;
        b
    }

    /// Sets how far each interval reaches into its neighbours.
    pub fn hysteresis(self, hysteresis: i64) -> (r: Self)
        ensures
            r@ == (LinspaceParams { hysteresis: hysteresis as int, ..self@ }),
    {
        let mut b = self;
        b.hysteresis = hysteresis;
        b
    }

    /// Builds the controller, or rejects the parameters.
    pub fn build(self) -> (r: Result<MultiSetpointHysteresis, String>)
        ensures
            self@.num_points < 2 ==> (r matches Err(e) && e@
                == "'num_points' must be greater than 1!"@),
            self@.num_points >= 2 && self@.hysteresis < 0 ==> (r matches Err(e) && e@
                == "'hysteresis' must be positive!"@),
            self@.num_points >= 2 && self@.hysteresis >= 0 && self@.in_start >= self@.in_stop
                ==> (r matches Err(e) && e@ == "'in_start' must be smaller than 'in_stop'"@),
            params_valid(self@) <==> r is Ok,
            r matches Ok(h) ==> built_from(h@, self@) && state_valid(h@),
    {
        if self.num_points < 2 {
            return Err(String::from_str("'num_points' must be greater than 1!"));
        } else if self.hysteresis < 0 {
            return Err(String::from_str("'hysteresis' must be positive!"));
        } else if self.in_start >= self.in_stop {
            return Err(String::from_str("'in_start' must be smaller than 'in_stop'"));
        }
        let ghost p = self@;
        let n = self.num_points;
        let d: i128 = if n > 2 {
            (n - 2) as i128
        } else {
            1
        };
        let mut setpoints: Vec<Setpoint> = Vec::new();
        let mut i: i32 = 0;
        while i < n
            invariant
                p == self@,
                params_valid(p),
                n == p.num_points,
                d == scale_for(p.num_points),
                0 <= i <= n,
                setpoints@.len() == i,
                forall|k: int|
                    0 <= k < i ==> {
                        &&& (#[trigger] setpoints@[k]).input_range[0] == point_lower(p, k)
                        &&& setpoints@[k].input_range[1] == point_upper(p, k)
                        &&& setpoints@[k].output == point_output(p, k)
                    },
            decreases n - i,
        {
            let sp = self.setpoint_at(i, d);
            setpoints.push(sp);
            i = i + 1;
        }
        Ok(MultiSetpointHysteresis { setpoints, scale: d, last_index: 0 })
    }

    fn setpoint_at(&self, i: i32, d: i128) -> (r: Setpoint)
        requires
            params_valid(self@),
            0 <= i < self@.num_points,
            d == scale_for(self@.num_points),
        ensures
            r.input_range[0] == point_lower(self@, i as int),
            r.input_range[1] == point_upper(self@, i as int),
            r.output == point_output(self@, i as int),
    {
        let ghost p = self@;
        let ghost big: int = 0x1_0000_0000_0000_0000int;
        let s = self.in_start as i128;
        let e = self.in_stop as i128;
        let h = self.hysteresis as i128;
        proof {
            assert(1 <= d <= i32::MAX);
            lemma_mul_bound(s as int, d as int, big, i32::MAX as int);
            lemma_mul_bound(h as int, d as int, big, i32::MAX as int);
            lemma_mul_bound(self.min as int, d as int, big, i32::MAX as int);
            lemma_mul_bound(self.max as int, d as int, big, i32::MAX as int);
            lemma_mul_bound(self.out_low as int, d as int, big, i32::MAX as int);
            lemma_mul_bound(self.out_high as int, d as int, big, i32::MAX as int);
            lemma_mul_bound(self.out_start as int, d as int, big, i32::MAX as int);
            lemma_mul_bound(s + h, d as int, 2 * big, i32::MAX as int);
            lemma_mul_bound(e - h, d as int, 2 * big, i32::MAX as int);
        }
        if i == 0 {
            Setpoint {
                input_range: [self.min as i128 * d, (s + h) * d],
                output: self.out_low as i128 * d,
            }
        } else if i == self.num_points - 1 {
            Setpoint {
                input_range: [(e - h) * d, self.max as i128 * d],
                output: self.out_high as i128 * d,
            }
        } else {
            let span_in = e - s;
            let span_out = self.out_stop as i128 - self.out_start as i128;
            let k = i as i128;
            proof {
                lemma_mul_bound(span_in as int, k as int, 2 * big, i32::MAX as int);
                lemma_mul_bound(span_in as int, (k - 1) as int, 2 * big, i32::MAX as int);
                lemma_mul_bound(span_out as int, k as int, 2 * big, i32::MAX as int);
            }
            Setpoint {
                input_range: [s * d + span_in * (k - 1) - h * d, s * d + span_in * k + h * d],
                output: self.out_start as i128 * d + span_out * k,
            }
        }
    }
}

/// Hysteresis: while the selected setpoint still holds the input, processing
/// keeps it selected and repeats its output.
pub proof fn law_selected_setpoint_is_kept(s: HysteresisState, value: int)
    requires
        state_valid(s),
        holds(s.setpoints[s.last_index], value * s.scale),
    ensures
        next_state(s, value) == s,
        next_output(s, value) == s.setpoints[s.last_index].output,
{
}

/// Whenever some setpoint holds the input, processing selects a setpoint
/// that holds it.
pub proof fn law_selection_holds_input(s: HysteresisState, value: int)
    requires
        state_valid(s),
        covers(s, value),
    ensures
        0 <= selected_index(s, value) < s.setpoints.len(),
        holds(s.setpoints[selected_index(s, value)], value * s.scale),
        state_valid(next_state(s, value)),
{
    let x = value * s.scale;
    if !holds(s.setpoints[s.last_index], x) {
        let j = choose|j: int| 0 <= j < s.setpoints.len() && holds(#[trigger] s.setpoints[j], x);
        lemma_first_holding_found(s.setpoints, x, j);
        lemma_first_holding_bounds(s.setpoints, x, 0);
    }
}

/// When the current setpoint no longer holds the input, processing selects
/// the lowest-indexed setpoint that holds it: no setpoint with a smaller
/// index holds the input, and the output is that of the selected setpoint.
pub proof fn law_moved_selection_is_lowest(s: HysteresisState, value: int)
    requires
        state_valid(s),
        covers(s, value),
        !holds(s.setpoints[s.last_index], value * s.scale),
    ensures
        0 <= next_state(s, value).last_index < s.setpoints.len(),
        holds(s.setpoints[next_state(s, value).last_index], value * s.scale),
        forall|k: int|
            0 <= k < next_state(s, value).last_index ==> !holds(
                #[trigger] s.setpoints[k],
                value * s.scale,
            ),
        next_output(s, value) == s.setpoints[next_state(s, value).last_index].output,
{
    let x = value * s.scale;
    let j = choose|j: int| 0 <= j < s.setpoints.len() && holds(#[trigger] s.setpoints[j], x);
    lemma_first_holding_found(s.setpoints, x, j);
    lemma_first_holding_bounds(s.setpoints, x, 0);
}

/// Processing the same input twice in a row gives the same output and
/// leaves the state as the first call left it.
pub proof fn law_process_is_idempotent(s: HysteresisState, value: int)
    requires
        state_valid(s),
        covers(s, value),
    ensures
        next_state(next_state(s, value), value) == next_state(s, value),
        next_output(next_state(s, value), value) == next_output(s, value),
{
    law_selection_holds_input(s, value);
    law_selected_setpoint_is_kept(next_state(s, value), value);
}

proof fn lemma_chain_covers(p: LinspaceParams, x: int, k: int)
    requires
        p.num_points >= 2,
        0 <= k < p.num_points,
        point_lower(p, k) < x,
        x < point_upper(p, p.num_points - 1),
        forall|i: int|
            0 <= i < p.num_points - 1 ==> #[trigger] point_lower(p, i + 1) < point_upper(p, i),
    ensures
        exists|i: int| 0 <= i < p.num_points && point_lower(p, i) < x && x < #[trigger] point_upper(p, i),
    decreases p.num_points - k,
{
    if x < point_upper(p, k) {
    } else {
        assert(point_lower(p, k + 1) < point_upper(p, k));
        lemma_chain_covers(p, x, k + 1);
    }
}

/// Coverage: a controller built with a positive hysteresis, where
/// neighbouring intervals therefore overlap, holds every input strictly
/// between `min` and `max` (however it was used since), so that processing
/// such an input always succeeds.  With only two setpoints the intervals overlap only when the
/// input range is narrower than twice the hysteresis.
pub proof fn law_linspace_covers_open_range(s: HysteresisState, p: LinspaceParams, value: int)
    requires
        params_valid(p),
        setpoints_from(s, p),
        p.hysteresis > 0,
        p.num_points > 2 || p.in_stop - p.in_start < 2 * p.hysteresis,
        p.min < value < p.max,
    ensures
        covers(s, value),
{
    let n = p.num_points;
    let d = scale_for(n);
    let x = value * d;
    let h = p.hysteresis;
    assert(p.min * d < x && x < p.max * d) by (nonlinear_arith)
        requires
            d >= 1,
            x == value * d,
            p.min < value < p.max,
    ;
    assert forall|i: int| 0 <= i < n - 1 implies #[trigger] point_lower(p, i + 1) < point_upper(p, i) by {
        if i == n - 2 && n > 2 {
            assert((p.in_stop - p.in_start) * i == (p.in_stop - p.in_start) * d);
            assert(h * d > 0) by (nonlinear_arith)
                requires
                    h > 0,
                    d >= 1,
            ;
            assert(p.in_start * d + (p.in_stop - p.in_start) * d == p.in_stop * d) by (nonlinear_arith);
            assert((p.in_stop - h) * d == p.in_stop * d - h * d) by (nonlinear_arith);
        } else if i == 0 && n == 2 {
            assert((p.in_stop - h) * d < (p.in_start + h) * d) by (nonlinear_arith)
                requires
                    p.in_stop - h < p.in_start + h,
                    d >= 1,
            ;
        } else {
            assert(h * d > 0) by (nonlinear_arith)
                requires
                    h > 0,
                    d >= 1,
            ;
            if i == 0 {
                assert((p.in_start + h) * d == p.in_start * d + h * d) by (nonlinear_arith);
            }
        }
    }
    lemma_chain_covers(p, x, 0);
    let i = choose|i: int| 0 <= i < n && point_lower(p, i) < x && x < #[trigger] point_upper(p, i);
    assert(holds(s.setpoints[i], value * s.scale));
}

/// The outer setpoints of a built controller: the lowest one reaches from
/// `min` to `hysteresis` above the start of the input range and produces
/// the low output; the highest one reaches from `hysteresis` below the stop
/// of the input range to `max` and produces the high output.
pub proof fn law_linspace_outer_setpoints(s: HysteresisState, p: LinspaceParams)
    requires
        params_valid(p),
        setpoints_from(s, p),
    ensures
        s.setpoints[0].output == p.out_low * s.scale,
        s.setpoints[0].input_range[0] == p.min * s.scale,
        s.setpoints[0].input_range[1] == (p.in_start + p.hysteresis) * s.scale,
        s.setpoints[p.num_points - 1].output == p.out_high * s.scale,
        s.setpoints[p.num_points - 1].input_range[0] == (p.in_stop - p.hysteresis) * s.scale,
        s.setpoints[p.num_points - 1].input_range[1] == p.max * s.scale,
{
    assert(s.setpoints[0].output == point_output(p, 0));
    assert(s.setpoints[p.num_points - 1].output == point_output(p, p.num_points - 1));
}

/// The inner setpoints interpolate linearly: the first of them starts
/// `hysteresis` below the start of the input range, the last ends
/// `hysteresis` above its stop and produces the stop output, and every inner
/// output lies between the start and the stop output.
pub proof fn law_linspace_interpolates(p: LinspaceParams, i: int)
    requires
        params_valid(p),
        p.num_points > 2,
        0 < i < p.num_points - 1,
    ensures
        point_lower(p, 1) == (p.in_start - p.hysteresis) * scale_for(p.num_points),
        point_upper(p, p.num_points - 2) == (p.in_stop + p.hysteresis) * scale_for(p.num_points),
        point_output(p, p.num_points - 2) == p.out_stop * scale_for(p.num_points),
        p.out_start <= p.out_stop ==> p.out_start * scale_for(p.num_points) <= point_output(p, i)
            <= p.out_stop * scale_for(p.num_points),
        p.out_stop <= p.out_start ==> p.out_stop * scale_for(p.num_points) <= point_output(p, i)
            <= p.out_start * scale_for(p.num_points),
{
    let d = scale_for(p.num_points);
    let n = p.num_points;
    assert(d == n - 2);
    assert((p.in_start - p.hysteresis) * d == p.in_start * d - p.hysteresis * d) by (nonlinear_arith);
    assert(p.in_start * d + (p.in_stop - p.in_start) * d + p.hysteresis * d == (p.in_stop
        + p.hysteresis) * d) by (nonlinear_arith);
    assert(p.out_start * d + (p.out_stop - p.out_start) * d == p.out_stop * d) by (nonlinear_arith);
    let a = p.out_start;
    let b = p.out_stop;
    assert(a <= b ==> a * d <= a * d + (b - a) * i <= b * d) by (nonlinear_arith)
        requires
            0 < i <= d,
    ;
    assert(b <= a ==> b * d <= a * d + (b - a) * i <= a * d) by (nonlinear_arith)
        requires
            0 < i <= d,
    ;
}

} // verus!
