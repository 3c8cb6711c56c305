use crate::point::{Legs, Point};
use crate::reading::Reading;
use vstd::prelude::*;

verus! {

/// The legs under the three sides of a triangle.
#[derive(Clone, Copy, Debug, PartialEq, Eq, Structural)]
pub struct SideLegs {
    pub ab: Legs,
    pub bc: Legs,
    pub ca: Legs,
}

/// The three side lengths of a triangle, as bit patterns.
#[derive(Clone, Copy, Debug, PartialEq, Eq, Structural)]
pub struct Sides {
    pub ab: u32,
    pub bc: u32,
    pub ca: u32,
}

/// The sides as seen from one vertex: the two that meet there, and the one
/// across.
#[derive(Clone, Copy, Debug, PartialEq, Eq, Structural)]
pub struct Corner {
    pub adjacent_1: u32,
    pub adjacent_2: u32,
    pub opposite: u32,
}

/// The corners at the three vertices of a triangle.
#[derive(Clone, Copy, Debug, PartialEq, Eq, Structural)]
pub struct Corners {
    pub alpha: Corner,
    pub beta: Corner,
    pub gamma: Corner,
}

/// The three interior angles of a triangle, in degrees, as bit patterns:
/// alpha at `point_a`, beta at `point_b`, gamma at `point_c`.
#[derive(Clone, Copy, Debug, PartialEq, Eq, Structural)]
pub struct InteriorAngles {
    pub alpha: u32,
    pub beta: u32,
    pub gamma: u32,
}

/// A piece of arithmetic that a triangle needs done before one of its
/// attributes can be read.
#[derive(Clone, Copy, Debug, PartialEq, Eq, Structural)]
pub enum TriangleTask {
    /// The three side lengths, each the hypotenuse over its legs:
    /// `sqrt(opposite^2 + adjacent^2)`.
    Sides(SideLegs),
    /// The three interior angles, each by the law of cosines on its corner,
    /// in degrees:
    /// `acos((adjacent_1^2 + adjacent_2^2 - opposite^2) / (2 * adjacent_1 * adjacent_2)) * 180 / pi`.
    /// Sides that cannot form a triangle are not special: the angle is
    /// whatever IEEE-754 arithmetic yields.
    Angles(Corners),
}

/// The result of a [`TriangleTask`], as bit patterns.
#[derive(Clone, Copy, Debug, PartialEq, Eq, Structural)]
pub enum TriangleOutcome {
    Sides(Sides),
    Angles(InteriorAngles),
}

/// The attributes of a triangle, one for each accessor.
pub enum TriangleAttribute {
    Ab,
    Bc,
    Ca,
    Alpha,
    Beta,
    Gamma,
}

impl TriangleAttribute {
    /// Whether the attribute is one of the side lengths.
    pub open spec fn is_side(self) -> bool {
        self is Ab || self is Bc || self is Ca
    }
}

impl TriangleOutcome {
    /// An outcome answers a task when it is of the task's kind.
    pub open spec fn answers(self, task: TriangleTask) -> bool {
        match task {
            TriangleTask::Sides(_) => self is Sides,
            TriangleTask::Angles(_) => self is Angles,
        }
    }
}

impl Sides {
    /// The corners that these sides make. At `point_a` the sides `ab` and
    /// `ca` meet and `bc` lies across; at `point_b`, `bc` and `ab` meet and
    /// `ca` lies across; at `point_c`, `ca` and `bc` meet and `ab` lies
    /// across.
    pub open spec fn spec_corners(self) -> Corners {
        Corners {
            alpha: Corner { adjacent_1: self.ab, adjacent_2: self.ca, opposite: self.bc },
            beta: Corner { adjacent_1: self.bc, adjacent_2: self.ab, opposite: self.ca },
            gamma: Corner { adjacent_1: self.ca, adjacent_2: self.bc, opposite: self.ab },
        }
    }

    /// Arranges the sides around each vertex for the law of cosines.
    pub fn corners(&self) -> (corners: Corners)
        ensures
            corners == self.spec_corners(),
    {
        Corners {
            alpha: Corner { adjacent_1: self.ab, adjacent_2: self.ca, opposite: self.bc },
            beta: Corner { adjacent_1: self.bc, adjacent_2: self.ab, opposite: self.ca },
            gamma: Corner { adjacent_1: self.ca, adjacent_2: self.bc, opposite: self.ab },
        }
    }
}

/// The mathematical content of a [`Triangle`]: its vertices, and the two
/// groups of derived attributes, each unset or computed as a whole.
pub struct TriangleState {
    pub point_a: Point,
    pub point_b: Point,
    pub point_c: Point,
    pub sides: Option<Sides>,
    pub angles: Option<InteriorAngles>,
}

impl TriangleState {
    /// The angles are computed from the sides, so they are never known
    /// before the sides are.
    pub open spec fn wf(self) -> bool {
        self.angles is Some ==> self.sides is Some
    }

    /// The triangle over three points with nothing computed yet.
    pub open spec fn fresh(point_a: Point, point_b: Point, point_c: Point) -> TriangleState {
        TriangleState { point_a, point_b, point_c, sides: None, angles: None }
    }

    /// The triangle over three points with every attribute computed.
    pub open spec fn initialized(
        point_a: Point,
        point_b: Point,
        point_c: Point,
        sides: Sides,
        angles: InteriorAngles,
    ) -> TriangleState {
        TriangleState { point_a, point_b, point_c, sides: Some(sides), angles: Some(angles) }
    }

    /// The legs under the three sides: `ab` runs from `point_a` to
    /// `point_b`, `bc` from `point_b` to `point_c`, `ca` from `point_c` to
    /// `point_a`.
    pub open spec fn side_legs(self) -> SideLegs {
        SideLegs {
            ab: self.point_a.spec_legs_to(self.point_b),
            bc: self.point_b.spec_legs_to(self.point_c),
            ca: self.point_c.spec_legs_to(self.point_a),
        }
    }

    /// The task that stands before the angles: the sides while they are
    /// unset, then the angles on the corners that the cached sides make.
    pub open spec fn angles_task(self) -> TriangleTask {
        match self.sides {
            Some(sides) => TriangleTask::Angles(sides.spec_corners()),
            None => TriangleTask::Sides(self.side_legs()),
        }
    }

    /// What reading the given attribute gives.
    pub open spec fn reading(self, attribute: TriangleAttribute) -> Reading<TriangleTask> {
        if attribute.is_side() {
            match self.sides {
                Some(sides) => Reading::Known(
                    match attribute {
                        TriangleAttribute::Ab => sides.ab,
                        TriangleAttribute::Bc => sides.bc,
                        _ => sides.ca,
                    },
                ),
                None => Reading::Missing(TriangleTask::Sides(self.side_legs())),
            }
        } else {
            match self.angles {
                Some(angles) => Reading::Known(
                    match attribute {
                        TriangleAttribute::Alpha => angles.alpha,
                        TriangleAttribute::Beta => angles.beta,
                        _ => angles.gamma,
                    },
                ),
                None => Reading::Missing(self.angles_task()),
            }
        }
    }

    /// The next task on the way to a fully computed triangle: the sides
    /// first, then the angles; `None` once everything is computed.
    pub open spec fn init(self) -> Option<TriangleTask> {
        if self.sides is None {
            Some(TriangleTask::Sides(self.side_legs()))
        } else if self.angles is None {
            Some(self.angles_task())
        } else {
            None
        }
    }

    /// An outcome is accepted only while its attributes are unset, and
    /// angles only once the sides are known.
    pub open spec fn accepts(self, outcome: TriangleOutcome) -> bool {
        match outcome {
            TriangleOutcome::Sides(_) => self.sides is None,
            TriangleOutcome::Angles(_) => self.sides is Some && self.angles is None,
        }
    }

    /// The state after an outcome has been handed in: an accepted outcome
    /// fills its attributes, any other changes nothing.
    pub open spec fn supplied(self, outcome: TriangleOutcome) -> TriangleState {
        if !self.accepts(outcome) {
            self
        } else {
            match outcome {
                TriangleOutcome::Sides(sides) => TriangleState { sides: Some(sides), ..self },
                TriangleOutcome::Angles(angles) => TriangleState { angles: Some(angles), ..self },
            }
        }
    }

    /// The number of attribute groups that are still unset.
    pub open spec fn unset(self) -> nat {
        let sides: nat = if self.sides is None { 1 } else { 0 };
        let angles: nat = if self.angles is None { 1 } else { 0 };
        sides + angles
    }

    /// The state after the caller has carried out `task`, if there is one,
    /// with `kernel` as its arithmetic, and supplied the outcome.
    pub open spec fn carried_out(
        self,
        task: Option<TriangleTask>,
        kernel: spec_fn(TriangleTask) -> TriangleOutcome,
    ) -> TriangleState {
        match task {
            Some(task) => self.supplied(kernel(task)),
            None => self,
        }
    }

    /// The state after one round of forcing an attribute: it is read, and
    /// where it was missing, the task that the reading named is carried out.
    pub open spec fn forced_once(
        self,
        attribute: TriangleAttribute,
        kernel: spec_fn(TriangleTask) -> TriangleOutcome,
    ) -> TriangleState {
        self.carried_out(self.reading(attribute).task(), kernel)
    }

    /// The state after an attribute has been forced. Two rounds are enough:
    /// an angle may need the sides first.
    pub open spec fn forced(
        self,
        attribute: TriangleAttribute,
        kernel: spec_fn(TriangleTask) -> TriangleOutcome,
    ) -> TriangleState {
        self.forced_once(attribute, kernel).forced_once(attribute, kernel)
    }

    /// The state after the attributes have been forced one after the other.
    pub open spec fn forced_all(
        self,
        attributes: Seq<TriangleAttribute>,
        kernel: spec_fn(TriangleTask) -> TriangleOutcome,
    ) -> TriangleState
        decreases attributes.len(),
    {
        if attributes.len() == 0 {
            self
        } else {
            self.forced(attributes[0], kernel).forced_all(attributes.drop_first(), kernel)
        }
    }
}

/// Whether one of the attributes is an angle.
pub open spec fn names_an_angle(attributes: Seq<TriangleAttribute>) -> bool {
    exists|i: int| 0 <= i < attributes.len() && !(#[trigger] attributes[i]).is_side()
}

/// A kernel is sound when each of its outcomes is of the kind of its task.
pub open spec fn triangle_kernel_answers(
    kernel: spec_fn(TriangleTask) -> TriangleOutcome,
) -> bool {
    forall|task: TriangleTask| (#[trigger] kernel(task)).answers(task)
}

/// Three points, with lazily computed side lengths and interior angles.
#[derive(Clone, Copy, Debug, PartialEq, Eq)]
pub struct Triangle {
    point_a: Point,
    point_b: Point,
    point_c: Point,
    ab: Option<u32>,
    bc: Option<u32>,
    ca: Option<u32>,
    alpha: Option<u32>,
    beta: Option<u32>,
    gamma: Option<u32>,
}

impl View for Triangle {
    type V = TriangleState;

    closed spec fn view(&self) -> TriangleState {
        TriangleState {
            point_a: self.point_a,
            point_b: self.point_b,
            point_c: self.point_c,
            sides: match (self.ab, self.bc, self.ca) {
                (Some(ab), Some(bc), Some(ca)) => Some(Sides { ab, bc, ca }),
                _ => None,
            },
            angles: match (self.ab, self.bc, self.ca, self.alpha, self.beta, self.gamma) {
                (Some(_), Some(_), Some(_), Some(alpha), Some(beta), Some(gamma)) => Some(
                    InteriorAngles { alpha, beta, gamma },
                ),
                _ => None,
            },
        }
    }
}

impl Triangle {
    /// The sides are set together, the angles are set together, and the
    /// angles are never set before the sides.
    #[verifier::type_invariant]
    spec fn groups_are_whole(self) -> bool {
        &&& self.ab is Some <==> self.bc is Some
        &&& self.bc is Some <==> self.ca is Some
        &&& self.alpha is Some <==> self.beta is Some
        &&& self.beta is Some <==> self.gamma is Some
        &&& self.alpha is Some ==> self.ab is Some
    }

    /// The content of every triangle is well formed.
    pub proof fn lemma_view_wf(self)
        ensures
            self@.wf(),
    {
    }

    /// The triangle over three points, with no attribute computed.
    pub fn new(point_a: Point, point_b: Point, point_c: Point) -> (triangle: Triangle)
        ensures
            triangle@ == TriangleState::fresh(point_a, point_b, point_c),
    {
        Triangle {
            point_a,
            point_b,
            point_c,
            ab: None,
            bc: None,
            ca: None,
            alpha: None,
            beta: None,
            gamma: None,
        }
    }

    /// The triangle over three points, with every attribute computed from
    /// the start: the caller has done the arithmetic beforehand.
    pub fn new_initialized(
        point_a: Point,
        point_b: Point,
        point_c: Point,
        sides: Sides,
        angles: InteriorAngles,
    ) -> (triangle: Triangle)
        ensures
            triangle@ == TriangleState::initialized(point_a, point_b, point_c, sides, angles),
    {
        let mut triangle = Triangle::new(point_a, point_b, point_c);
        triangle.supply(TriangleOutcome::Sides(sides));
        triangle.supply(TriangleOutcome::Angles(angles));
        triangle
    }

    /// The vertex `point_a`.
    pub fn point_a(&self) -> (point: Point)
        ensures
            point == self@.point_a,
    {
        self.point_a
    }

    /// The vertex `point_b`.
    pub fn point_b(&self) -> (point: Point)
        ensures
            point == self@.point_b,
    {
        self.point_b
    }

    /// The vertex `point_c`.
    pub fn point_c(&self) -> (point: Point)
        ensures
            point == self@.point_c,
    {
        self.point_c
    }

    /// The task that yields the three side lengths.
    fn sides_task(&self) -> (task: TriangleTask)
        ensures
            task == TriangleTask::Sides(self@.side_legs()),
    {
        TriangleTask::Sides(
            SideLegs {
                ab: self.point_a.legs_to(&self.point_b),
                bc: self.point_b.legs_to(&self.point_c),
                ca: self.point_c.legs_to(&self.point_a),
            },
        )
    }

    /// The task that stands before the angles: the sides while they are
    /// unset, then the law of cosines on the cached sides.
    fn angles_task(&self) -> (task: TriangleTask)
        ensures
            task == self@.angles_task(),
    {
        proof {
            use_type_invariant(self);
        }
        match (self.ab, self.bc, self.ca) {
            (Some(ab), Some(bc), Some(ca)) => TriangleTask::Angles(Sides { ab, bc, ca }.corners()),
            _ => self.sides_task(),
        }
    }

    /// The next task on the way to a fully computed triangle: the sides
    /// first, then the angles. `None` means that every attribute is cached.
    pub fn init(&self) -> (task: Option<TriangleTask>)
        ensures
            task == self@.init(),
    {
        proof {
            use_type_invariant(self);
        }
        if self.ab.is_none() {
            Some(self.sides_task())
        } else if self.alpha.is_none() {
            Some(self.angles_task())
        } else {
            None
        }
    }

    /// The cached length of the side from `point_a` to `point_b`, or the
    /// task that yields all three sides.
    pub fn ab(&self) -> (reading: Reading<TriangleTask>)
        ensures
            reading == self@.reading(TriangleAttribute::Ab),
    {
        proof {
            use_type_invariant(self);
        }
        match self.ab {
            Some(bits) => Reading::Known(bits),
            None => Reading::Missing(self.sides_task()),
        }
    }

    /// The cached length of the side from `point_b` to `point_c`, or the
    /// task that yields all three sides.
    pub fn bc(&self) -> (reading: Reading<TriangleTask>)
        ensures
            reading == self@.reading(TriangleAttribute::Bc),
    {
        proof {
            use_type_invariant(self);
        }
        match self.bc {
            Some(bits) => Reading::Known(bits),
            None => Reading::Missing(self.sides_task()),
        }
    }

    /// The cached length of the side from `point_c` to `point_a`, or the
    /// task that yields all three sides.
    pub fn ca(&self) -> (reading: Reading<TriangleTask>)
        ensures
            reading == self@.reading(TriangleAttribute::Ca),
    {
        proof {
            use_type_invariant(self);
        }
        match self.ca {
            Some(bits) => Reading::Known(bits),
            None => Reading::Missing(self.sides_task()),
        }
    }

    /// The cached angle at `point_a`, or the task that stands before it.
    pub fn alpha(&self) -> (reading: Reading<TriangleTask>)
        ensures
            reading == self@.reading(TriangleAttribute::Alpha),
    {
        proof {
            use_type_invariant(self);
        }
        match self.alpha {
            Some(bits) => Reading::Known(bits),
            None => Reading::Missing(self.angles_task()),
        }
    }

    /// The cached angle at `point_b`, or the task that stands before it.
    pub fn beta(&self) -> (reading: Reading<TriangleTask>)
        ensures
            reading == self@.reading(TriangleAttribute::Beta),
    {
        proof {
            use_type_invariant(self);
        }
        match self.beta {
            Some(bits) => Reading::Known(bits),
            None => Reading::Missing(self.angles_task()),
        }
    }

    /// The cached angle at `point_c`, or the task that stands before it.
    pub fn gamma(&self) -> (reading: Reading<TriangleTask>)
        ensures
            reading == self@.reading(TriangleAttribute::Gamma),
    {
        proof {
            use_type_invariant(self);
        }
        match self.gamma {
            Some(bits) => Reading::Known(bits),
            None => Reading::Missing(self.angles_task()),
        }
    }

    /// Hands in the outcome of a task. Sides are stored if the sides were
    /// unset; angles are stored if the sides are known and the angles were
    /// unset. Any other outcome is dropped: a cached attribute is never
    /// replaced. Returns whether the outcome was stored.
    pub fn supply(&mut self, outcome: TriangleOutcome) -> (accepted: bool)
        ensures
            accepted == old(self)@.accepts(outcome),
            final(self)@ == old(self)@.supplied(outcome),
    {
        proof {
            use_type_invariant(&*self);
        }
        match outcome {
            TriangleOutcome::Sides(sides) => {
                if self.ab.is_none() {
                    *self = Triangle {
                        point_a: self.point_a,
                        point_b: self.point_b,
                        point_c: self.point_c,
                        ab: Some(sides.ab),
                        bc: Some(sides.bc),
                        ca: Some(sides.ca),
                        alpha: self.alpha,
                        beta: self.beta,
                        gamma: self.gamma,
                    };
                    true
                } else {
                    false
                }
            },
            TriangleOutcome::Angles(angles) => {
                if self.ab.is_some() && self.alpha.is_none() {
                    *self = Triangle {
                        point_a: self.point_a,
                        point_b: self.point_b,
                        point_c: self.point_c,
                        ab: self.ab,
                        bc: self.bc,
                        ca: self.ca,
                        alpha: Some(angles.alpha),
                        beta: Some(angles.beta),
                        gamma: Some(angles.gamma),
                    };
                    true
                } else {
                    false
                }
            },
        }
    }
}

/// A computed attribute never changes. Whatever outcome is handed in, the
/// vertices stay, a group that was computed keeps its bits, an outcome of
/// one group leaves the other group alone, and the angles are still never
/// known before the sides.
pub proof fn lemma_triangle_computed_is_final(state: TriangleState, outcome: TriangleOutcome)
    ensures
        state.supplied(outcome).point_a == state.point_a,
        state.supplied(outcome).point_b == state.point_b,
        state.supplied(outcome).point_c == state.point_c,
        state.sides is Some ==> state.supplied(outcome).sides == state.sides,
        state.angles is Some ==> state.supplied(outcome).angles == state.angles,
        outcome is Sides ==> state.supplied(outcome).angles == state.angles,
        outcome is Angles ==> state.supplied(outcome).sides == state.sides,
        state.wf() ==> state.supplied(outcome).wf(),
{
}

/// Supplying the outcome of the task that a reading named brings the
/// attribute one step nearer. A side is known at once, with the bits of
/// that outcome. So is an angle when the sides were known; when they were
/// not, the sides are known now, and the next reading of the angle names
/// the law of cosines on the corners that those sides make.
pub proof fn lemma_triangle_answer_is_read(
    state: TriangleState,
    attribute: TriangleAttribute,
    outcome: TriangleOutcome,
)
    requires
        state.reading(attribute) is Missing,
        outcome.answers(state.reading(attribute)->Missing_0),
    ensures
        state.accepts(outcome),
        state.supplied(outcome).reading(attribute) == (if state.sides is None {
            match attribute {
                TriangleAttribute::Ab => Reading::<TriangleTask>::Known(outcome->Sides_0.ab),
                TriangleAttribute::Bc => Reading::Known(outcome->Sides_0.bc),
                TriangleAttribute::Ca => Reading::Known(outcome->Sides_0.ca),
                _ => Reading::Missing(TriangleTask::Angles(outcome->Sides_0.spec_corners())),
            }
        } else {
            match attribute {
                TriangleAttribute::Alpha => Reading::<TriangleTask>::Known(
                    outcome->Angles_0.alpha,
                ),
                TriangleAttribute::Beta => Reading::Known(outcome->Angles_0.beta),
                _ => Reading::Known(outcome->Angles_0.gamma),
            }
        }),
{
}

/// Memoization. Forcing an attribute makes it known; forcing it a second
/// time, with whatever arithmetic, changes nothing at all and reads the same
/// bits; forcing a known attribute changes nothing; and forcing a side
/// leaves the angles as they were.
pub proof fn lemma_triangle_forcing_is_memoized(
    state: TriangleState,
    attribute: TriangleAttribute,
    first: spec_fn(TriangleTask) -> TriangleOutcome,
    second: spec_fn(TriangleTask) -> TriangleOutcome,
)
    requires
        triangle_kernel_answers(first),
    ensures
        state.forced(attribute, first).reading(attribute) is Known,
        state.forced(attribute, first).forced(attribute, second) == state.forced(attribute, first),
        state.reading(attribute) is Known ==> state.forced(attribute, first) == state,
        attribute.is_side() ==> state.forced(attribute, first).angles == state.angles,
        state.wf() ==> state.forced(attribute, first).wf(),
{
}

/// Each task that `init` names, once answered, fills one more group; two
/// rounds at most compute everything, and `init` names no task exactly when
/// nothing is left unset.
pub proof fn lemma_triangle_init_makes_progress(state: TriangleState, outcome: TriangleOutcome)
    ensures
        state.unset() <= 2,
        state.init() is None <==> state.unset() == 0,
        state.init() is Some && outcome.answers(state.init()->Some_0) ==> state.accepts(outcome)
            && state.supplied(outcome).unset() == state.unset() - 1,
{
}

/// What forcing a sequence of attributes leaves behind. A group that was
/// computed before keeps its bits. Unset sides hold the kernel's outcome on
/// the legs between the vertices as soon as anything is forced, since the
/// angles need them too. Unset angles hold the kernel's outcome on the
/// corners of the sides that are then cached, if the sequence forces an
/// angle, and stay unset otherwise.
pub proof fn lemma_triangle_forced_all(
    state: TriangleState,
    attributes: Seq<TriangleAttribute>,
    kernel: spec_fn(TriangleTask) -> TriangleOutcome,
)
    requires
        state.wf(),
        triangle_kernel_answers(kernel),
    ensures
        state.forced_all(attributes, kernel).wf(),
        state.forced_all(attributes, kernel).point_a == state.point_a,
        state.forced_all(attributes, kernel).point_b == state.point_b,
        state.forced_all(attributes, kernel).point_c == state.point_c,
        state.forced_all(attributes, kernel).sides == if state.sides is Some {
            state.sides
        } else if attributes.len() > 0 {
            Some(kernel(TriangleTask::Sides(state.side_legs()))->Sides_0)
        } else {
            None
        },
        state.forced_all(attributes, kernel).angles == if state.angles is Some {
            state.angles
        } else if names_an_angle(attributes) {
            Some(
                kernel(
                    TriangleTask::Angles(
                        state.forced_all(attributes, kernel).sides->Some_0.spec_corners(),
                    ),
                )->Angles_0,
            )
        } else {
            None
        },
    decreases attributes.len(),
{
    if attributes.len() > 0 {
        let first = attributes[0];
        let rest = attributes.drop_first();
        lemma_triangle_forced_all(state.forced(first, kernel), rest, kernel);
        if names_an_angle(attributes) {
            let i = choose|i: int|
                0 <= i < attributes.len() && !(#[trigger] attributes[i]).is_side();
            if i > 0 {
                assert(!rest[i - 1].is_side());
            }
        }
        if names_an_angle(rest) {
            let i = choose|i: int| 0 <= i < rest.len() && !(#[trigger] rest[i]).is_side();
            assert(!attributes[i + 1].is_side());
        }
        if !first.is_side() {
            assert(!attributes[0].is_side());
        }
    }
}

/// Eager and lazy construction agree. Start from a fresh triangle and force
/// its attributes in any order, any number of times, as long as one of the
/// angles is among them; or follow `init` for two rounds. Either way the
/// result is the triangle that `new_initialized` builds from the kernel's
/// sides on the legs between the vertices and the kernel's angles on the
/// corners of those sides, and `init` has nothing left to ask for.
pub proof fn lemma_triangle_eager_equals_lazy(
    point_a: Point,
    point_b: Point,
    point_c: Point,
    attributes: Seq<TriangleAttribute>,
    kernel: spec_fn(TriangleTask) -> TriangleOutcome,
)
    requires
        triangle_kernel_answers(kernel),
        names_an_angle(attributes),
    ensures
        ({
            let fresh = TriangleState::fresh(point_a, point_b, point_c);
            let sides = kernel(TriangleTask::Sides(fresh.side_legs()))->Sides_0;
            let angles = kernel(TriangleTask::Angles(sides.spec_corners()))->Angles_0;
            let eager = TriangleState::initialized(point_a, point_b, point_c, sides, angles);
            let one_round = fresh.carried_out(fresh.init(), kernel);
            let two_rounds = one_round.carried_out(one_round.init(), kernel);
            &&& fresh.forced_all(attributes, kernel) == eager
            &&& two_rounds == eager
            &&& eager.init() is None
        }),
{
    lemma_triangle_forced_all(TriangleState::fresh(point_a, point_b, point_c), attributes, kernel);
}

} // verus!
