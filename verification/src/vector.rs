use crate::point::{Legs, Point};
use crate::reading::Reading;
use vstd::prelude::*;

verus! {

/// A piece of arithmetic that a vector needs done before one of its
/// attributes can be read. The legs are the inputs; the caller takes the two
/// differences and applies the formula in single precision.
#[derive(Clone, Copy, Debug, PartialEq, Eq, Structural)]
pub enum VectorTask {
    /// The length of the hypotenuse: `sqrt(opposite^2 + adjacent^2)`.
    Length(Legs),
    /// The two angles of the right triangle under the vector, in degrees:
    /// `beta = atan(opposite^2 / adjacent^2) * 180 / pi` and
    /// `alpha = 90 - beta`. The legs are squared before they are divided, so
    /// their signs are lost: this is not the two-argument arctangent.
    /// Degenerate legs are not special, the result is whatever IEEE-754
    /// arithmetic yields: with a zero adjacent leg and a nonzero opposite leg
    /// the quotient is infinite, beta is 90 and alpha is 0; with both legs
    /// zero the quotient is NaN, and so are both angles.
    Angles(Legs),
}

/// The two angles of a vector, in degrees, as bit patterns.
#[derive(Clone, Copy, Debug, PartialEq, Eq, Structural)]
pub struct AcuteAngles {
    pub alpha: u32,
    pub beta: u32,
}

/// The result of a [`VectorTask`], as bit patterns.
#[derive(Clone, Copy, Debug, PartialEq, Eq, Structural)]
pub enum VectorOutcome {
    Length(u32),
    Angles(AcuteAngles),
}

/// The attributes of a vector, one for each accessor.
pub enum VectorAttribute {
    Length,
    Alpha,
    Beta,
}

impl VectorOutcome {
    /// An outcome answers a task when it is of the task's kind.
    pub open spec fn answers(self, task: VectorTask) -> bool {
        match task {
            VectorTask::Length(_) => self is Length,
            VectorTask::Angles(_) => self is Angles,
        }
    }
}

/// The mathematical content of a [`Vector`]: its endpoints, and the two
/// groups of derived attributes, each unset or computed as a whole.
pub struct VectorState {
    pub point_a: Point,
    pub point_b: Point,
    pub length: Option<u32>,
    pub angles: Option<AcuteAngles>,
}

impl VectorState {
    /// The vector from `point_a` to `point_b` with nothing computed yet.
    pub open spec fn fresh(point_a: Point, point_b: Point) -> VectorState {
        VectorState { point_a, point_b, length: None, angles: None }
    }

    /// The vector from `point_a` to `point_b` with every attribute computed.
    pub open spec fn initialized(
        point_a: Point,
        point_b: Point,
        length: u32,
        angles: AcuteAngles,
    ) -> VectorState {
        VectorState { point_a, point_b, length: Some(length), angles: Some(angles) }
    }

    /// The legs under the vector, from `point_a` to `point_b`.
    pub open spec fn legs(self) -> Legs {
        self.point_a.spec_legs_to(self.point_b)
    }

    /// What reading the given attribute gives: the cached bits, or the task
    /// that yields the attribute's group from the vector's legs.
    pub open spec fn reading(self, attribute: VectorAttribute) -> Reading<VectorTask> {
        match attribute {
            VectorAttribute::Length => match self.length {
                Some(bits) => Reading::Known(bits),
                None => Reading::Missing(VectorTask::Length(self.legs())),
            },
            VectorAttribute::Alpha => match self.angles {
                Some(angles) => Reading::Known(angles.alpha),
                None => Reading::Missing(VectorTask::Angles(self.legs())),
            },
            VectorAttribute::Beta => match self.angles {
                Some(angles) => Reading::Known(angles.beta),
                None => Reading::Missing(VectorTask::Angles(self.legs())),
            },
        }
    }

    /// The next task on the way to a fully computed vector: the length
    /// first, then the angles; `None` once everything is computed.
    pub open spec fn init(self) -> Option<VectorTask> {
        if self.length is None {
            Some(VectorTask::Length(self.legs()))
        } else if self.angles is None {
            Some(VectorTask::Angles(self.legs()))
        } else {
            None
        }
    }

    /// An outcome is accepted only while its attributes are unset.
    pub open spec fn accepts(self, outcome: VectorOutcome) -> bool {
        match outcome {
            VectorOutcome::Length(_) => self.length is None,
            VectorOutcome::Angles(_) => self.angles is None,
        }
    }

    /// The state after an outcome has been handed in: an accepted outcome
    /// fills its attributes, any other changes nothing.
    pub open spec fn supplied(self, outcome: VectorOutcome) -> VectorState {
        if !self.accepts(outcome) {
            self
        } else {
            match outcome {
                VectorOutcome::Length(bits) => VectorState { length: Some(bits), ..self },
                VectorOutcome::Angles(angles) => VectorState { angles: Some(angles), ..self },
            }
        }
    }

    /// The number of attribute groups that are still unset.
    pub open spec fn unset(self) -> nat {
        let length: nat = if self.length is None { 1 } else { 0 };
        let angles: nat = if self.angles is None { 1 } else { 0 };
        length + angles
    }

    /// The state after the caller has carried out `task`, if there is one,
    /// with `kernel` as its arithmetic, and supplied the outcome.
    pub open spec fn carried_out(
        self,
        task: Option<VectorTask>,
        kernel: spec_fn(VectorTask) -> VectorOutcome,
    ) -> VectorState {
        match task {
            Some(task) => self.supplied(kernel(task)),
            None => self,
        }
    }

    /// The state after one attribute has been forced: read, and where it was
    /// missing, its task carried out.
    pub open spec fn forced(
        self,
        attribute: VectorAttribute,
        kernel: spec_fn(VectorTask) -> VectorOutcome,
    ) -> VectorState {
        self.carried_out(self.reading(attribute).task(), kernel)
    }

    /// The state after the attributes have been forced one after the other.
    pub open spec fn forced_all(
        self,
        attributes: Seq<VectorAttribute>,
        kernel: spec_fn(VectorTask) -> VectorOutcome,
    ) -> VectorState
        decreases attributes.len(),
    {
        if attributes.len() == 0 {
            self
        } else {
            self.forced(attributes[0], kernel).forced_all(attributes.drop_first(), kernel)
        }
    }
}

/// A kernel is sound when each of its outcomes is of the kind of its task.
pub open spec fn vector_kernel_answers(kernel: spec_fn(VectorTask) -> VectorOutcome) -> bool {
    forall|task: VectorTask| (#[trigger] kernel(task)).answers(task)
}

/// A directed segment between two points, with a lazily computed length and
/// two lazily computed angles.
#[derive(Clone, Copy, Debug, PartialEq, Eq)]
pub struct Vector {
    point_a: Point,
    point_b: Point,
    length: Option<u32>,
    alpha: Option<u32>,
    beta: Option<u32>,
}

impl View for Vector {
    type V = VectorState;

    closed spec fn view(&self) -> VectorState {
        VectorState {
            point_a: self.point_a,
            point_b: self.point_b,
            length: self.length,
            angles: match (self.alpha, self.beta) {
                (Some(alpha), Some(beta)) => Some(AcuteAngles { alpha, beta }),
                _ => None,
            },
        }
    }
}

impl Vector {
    /// The two angles are set together.
    #[verifier::type_invariant]
    spec fn angles_are_a_group(self) -> bool {
        self.alpha is Some <==> self.beta is Some
    }

    /// The vector from `point_a` to `point_b`, with no attribute computed.
    pub fn new(point_a: Point, point_b: Point) -> (vector: Vector)
        ensures
            vector@ == VectorState::fresh(point_a, point_b),
    {
        Vector { point_a, point_b, length: None, alpha: None, beta: None }
    }

    /// The vector from `point_a` to `point_b`, with every attribute computed
    /// from the start: the caller has done the arithmetic beforehand.
    pub fn new_initialized(
        point_a: Point,
        point_b: Point,
        length: u32,
        angles: AcuteAngles,
    ) -> (vector: Vector)
        ensures
            vector@ == VectorState::initialized(point_a, point_b, length, angles),
    {
        let mut vector = Vector::new(point_a, point_b);
        vector.supply(VectorOutcome::Length(length));
        vector.supply(VectorOutcome::Angles(angles));
        vector
    }

    /// The start of the vector.
    pub fn point_a(&self) -> (point: Point)
        ensures
            point == self@.point_a,
    {
        self.point_a
    }

    /// The end of the vector.
    pub fn point_b(&self) -> (point: Point)
        ensures
            point == self@.point_b,
    {
        self.point_b
    }

    /// The next task on the way to a fully computed vector: the length
    /// first, then the angles. `None` means that every attribute is cached.
    pub fn init(&self) -> (task: Option<VectorTask>)
        ensures
            task == self@.init(),
    {
        proof {
            use_type_invariant(self);
        }
        if self.length.is_none() {
            Some(VectorTask::Length(self.point_a.legs_to(&self.point_b)))
        } else if self.alpha.is_none() {
            Some(VectorTask::Angles(self.point_a.legs_to(&self.point_b)))
        } else {
            None
        }
    }

    /// The cached length, or the task that yields it.
    pub fn length(&self) -> (reading: Reading<VectorTask>)
        ensures
            reading == self@.reading(VectorAttribute::Length),
    {
        match self.length {
            Some(bits) => Reading::Known(bits),
            None => Reading::Missing(VectorTask::Length(self.point_a.legs_to(&self.point_b))),
        }
    }

    /// The cached angle alpha, or the task that yields both angles.
    pub fn alpha(&self) -> (reading: Reading<VectorTask>)
        ensures
            reading == self@.reading(VectorAttribute::Alpha),
    {
        proof {
            use_type_invariant(self);
        }
        match self.alpha {
            Some(bits) => Reading::Known(bits),
            None => Reading::Missing(VectorTask::Angles(self.point_a.legs_to(&self.point_b))),
        }
    }

    /// The cached angle beta, or the task that yields both angles.
    pub fn beta(&self) -> (reading: Reading<VectorTask>)
        ensures
            reading == self@.reading(VectorAttribute::Beta),
    {
        proof {
            use_type_invariant(self);
        }
        match self.beta {
            Some(bits) => Reading::Known(bits),
            None => Reading::Missing(VectorTask::Angles(self.point_a.legs_to(&self.point_b))),
        }
    }

    /// Hands in the outcome of a task. It is stored if its attributes were
    /// unset, and dropped otherwise: a cached attribute is never replaced.
    /// Returns whether the outcome was stored.
    pub fn supply(&mut self, outcome: VectorOutcome) -> (accepted: bool)
        ensures
            accepted == old(self)@.accepts(outcome),
            final(self)@ == old(self)@.supplied(outcome),
    {
        proof {
            use_type_invariant(&*self);
        }
        match outcome {
            VectorOutcome::Length(bits) => {
                if self.length.is_none() {
                    self.length = Some(bits);
                    true
                } else {
                    false
                }
            },
            VectorOutcome::Angles(angles) => {
                if self.alpha.is_none() {
                    *self = Vector {
                        point_a: self.point_a,
                        point_b: self.point_b,
                        length: self.length,
                        alpha: Some(angles.alpha),
                        beta: Some(angles.beta),
                    };
                    true
                } else {
                    false
                }
            },
        }
    }
}

/// A computed attribute never changes. Whatever outcome is handed in, the
/// endpoints stay, an attribute that was computed keeps its bits, and an
/// outcome of one group leaves the other group alone.
pub proof fn lemma_vector_computed_is_final(state: VectorState, outcome: VectorOutcome)
    ensures
        state.supplied(outcome).point_a == state.point_a,
        state.supplied(outcome).point_b == state.point_b,
        state.length is Some ==> state.supplied(outcome).length == state.length,
        state.angles is Some ==> state.supplied(outcome).angles == state.angles,
        outcome is Length ==> state.supplied(outcome).angles == state.angles,
        outcome is Angles ==> state.supplied(outcome).length == state.length,
{
}

/// Supplying the outcome of the task that a reading named makes the
/// attribute known, with the bits of that outcome.
pub proof fn lemma_vector_answer_is_read(
    state: VectorState,
    attribute: VectorAttribute,
    outcome: VectorOutcome,
)
    requires
        state.reading(attribute) is Missing,
        outcome.answers(state.reading(attribute)->Missing_0),
    ensures
        state.accepts(outcome),
        state.supplied(outcome).reading(attribute) == Reading::<VectorTask>::Known(
            match attribute {
                VectorAttribute::Length => outcome->Length_0,
                VectorAttribute::Alpha => outcome->Angles_0.alpha,
                VectorAttribute::Beta => outcome->Angles_0.beta,
            },
        ),
{
}

/// Memoization. Forcing an attribute makes it known; forcing it a second
/// time, with whatever arithmetic, changes nothing at all and reads the same
/// bits; and forcing the length leaves the angles as they were.
pub proof fn lemma_vector_forcing_is_memoized(
    state: VectorState,
    attribute: VectorAttribute,
    first: spec_fn(VectorTask) -> VectorOutcome,
    second: spec_fn(VectorTask) -> VectorOutcome,
)
    requires
        vector_kernel_answers(first),
    ensures
        state.forced(attribute, first).reading(attribute) is Known,
        state.forced(attribute, first).forced(attribute, second) == state.forced(attribute, first),
        state.reading(attribute) is Known ==> state.forced(attribute, first) == state,
        attribute == VectorAttribute::Length ==> state.forced(attribute, first).angles
            == state.angles,
        attribute != VectorAttribute::Length ==> state.forced(attribute, first).length
            == state.length,
{
}

/// Each task that `init` names, once answered, fills one more group; two
/// rounds at most compute everything, and `init` names no task exactly when
/// nothing is left unset.
pub proof fn lemma_vector_init_makes_progress(state: VectorState, outcome: VectorOutcome)
    ensures
        state.unset() <= 2,
        state.init() is None <==> state.unset() == 0,
        state.init() is Some && outcome.answers(state.init()->Some_0) ==> state.accepts(outcome)
            && state.supplied(outcome).unset() == state.unset() - 1,
{
}

/// What forcing a sequence of attributes leaves behind: an attribute that
/// was computed before keeps its bits, one that was unset holds the kernel's
/// outcome on the vector's legs if the sequence forces its group, and stays
/// unset otherwise.
pub proof fn lemma_vector_forced_all(
    state: VectorState,
    attributes: Seq<VectorAttribute>,
    kernel: spec_fn(VectorTask) -> VectorOutcome,
)
    requires
        vector_kernel_answers(kernel),
    ensures
        state.forced_all(attributes, kernel).point_a == state.point_a,
        state.forced_all(attributes, kernel).point_b == state.point_b,
        state.forced_all(attributes, kernel).length == if state.length is Some {
            state.length
        } else if attributes.contains(VectorAttribute::Length) {
            Some(kernel(VectorTask::Length(state.legs()))->Length_0)
        } else {
            None
        },
        state.forced_all(attributes, kernel).angles == if state.angles is Some {
            state.angles
        } else if attributes.contains(VectorAttribute::Alpha) || attributes.contains(
            VectorAttribute::Beta,
        ) {
            Some(kernel(VectorTask::Angles(state.legs()))->Angles_0)
        } else {
            None
        },
    decreases attributes.len(),
{
    if attributes.len() > 0 {
        let first = attributes[0];
        let rest = attributes.drop_first();
        let next = state.forced(first, kernel);
        lemma_vector_forced_all(next, rest, kernel);
        assert forall|attribute: VectorAttribute|
            attributes.contains(attribute) <==> (first == attribute || rest.contains(
                attribute,
            )) by {
            if attributes.contains(attribute) {
                let i = choose|i: int| 0 <= i < attributes.len() && attributes[i] == attribute;
                if i > 0 {
                    assert(rest[i - 1] == attribute);
                }
            }
            if rest.contains(attribute) {
                let i = choose|i: int| 0 <= i < rest.len() && rest[i] == attribute;
                assert(attributes[i + 1] == attribute);
            }
        }
    }
}

/// Eager and lazy construction agree. Start from a fresh vector and force
/// its attributes in any order, any number of times, as long as the length
/// and one of the angles are among them; or follow `init` for two rounds.
/// Either way the result is the vector that `new_initialized` builds from
/// the kernel's outcomes on the vector's legs, and `init` has nothing left
/// to ask for.
pub proof fn lemma_vector_eager_equals_lazy(
    point_a: Point,
    point_b: Point,
    attributes: Seq<VectorAttribute>,
    kernel: spec_fn(VectorTask) -> VectorOutcome,
)
    requires
        vector_kernel_answers(kernel),
        attributes.contains(VectorAttribute::Length),
        attributes.contains(VectorAttribute::Alpha) || attributes.contains(VectorAttribute::Beta),
    ensures
        ({
            let fresh = VectorState::fresh(point_a, point_b);
            let legs = point_a.spec_legs_to(point_b);
            let eager = VectorState::initialized(
                point_a,
                point_b,
                kernel(VectorTask::Length(legs))->Length_0,
                kernel(VectorTask::Angles(legs))->Angles_0,
            );
            let one_round = fresh.carried_out(fresh.init(), kernel);
            let two_rounds = one_round.carried_out(one_round.init(), kernel);
            &&& fresh.forced_all(attributes, kernel) == eager
            &&& two_rounds == eager
            &&& eager.init() is None
        }),
{
    let fresh = VectorState::fresh(point_a, point_b);
    let legs = point_a.spec_legs_to(point_b);
    lemma_vector_forced_all(fresh, attributes, kernel);
}

} // verus!
