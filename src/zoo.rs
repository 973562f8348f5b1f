//! A zoo lane: animals enter a cage one after another, and a keeper refuses to let
//! an animal in right behind one of its own kind (they would fight) or a heavy
//! animal right behind another heavy one (the lane would be overloaded).

use std::collections::VecDeque;
use vstd::prelude::*;

verus! {

/// How heavy an animal is.
#[derive(Clone, Copy, PartialEq, Eq, Structural, Debug)]
pub enum Weight {
    H,
    M,
}

/// The kinds of animal in the zoo.
#[derive(Clone, Copy, PartialEq, Eq, Structural, Debug)]
pub enum Species {
    Elephant,
    Hippo,
    Lion,
    Tiger,
}

/// Why a keeper refused an animal.
#[derive(Clone, Copy, PartialEq, Eq, Structural, Debug)]
pub enum ZooError {
    /// Two animals of one kind in a row would fight.
    Fight,
    /// Two heavy animals in a row would overload the lane.
    HeavyWeight,
}

impl ZooError {
    /// The message the error reads as.
    pub fn message(&self) -> &'static str {
        match self {
            ZooError::Fight => "Error : Fight!! This work must be stopped.",
            ZooError::HeavyWeight => "Error : Overloaded!! This work must be stopped.",
        }
    }
}

/// The name of a species.
pub open spec fn name_of(s: Species) -> Seq<char> {
    match s {
        Species::Elephant => "Elephant"@,
        Species::Hippo => "Hippo"@,
        Species::Lion => "Lion"@,
        Species::Tiger => "Tiger"@,
    }
}

/// The weight of a species: elephants and hippos are heavy.
pub open spec fn weight_of(s: Species) -> Weight {
    match s {
        Species::Elephant | Species::Hippo => Weight::H,
        Species::Lion | Species::Tiger => Weight::M,
    }
}

impl Species {
    /// The species' name.
    pub fn get_name(&self) -> (r: &'static str)
        ensures
            r@ == name_of(*self),
    {
        match self {
            Species::Elephant => "Elephant",
            Species::Hippo => "Hippo",
            Species::Lion => "Lion",
            Species::Tiger => "Tiger",
        }
    }

    /// The species' weight.
    pub fn get_weight(&self) -> (r: Weight)
        ensures
            r == weight_of(*self),
    {
        match self {
            Species::Elephant | Species::Hippo => Weight::H,
            Species::Lion | Species::Tiger => Weight::M,
        }
    }
}

/// An animal that can walk the lane.
pub trait Animal {
    /// Its species.
    spec fn spec_species(&self) -> Species;

    /// Its species.
    fn species(&self) -> (r: Species)
        ensures
            r == self.spec_species(),
    ;

    /// Its name.
    fn get_name(&self) -> (r: &'static str)
        ensures
            r@ == name_of(self.spec_species()),
    ;

    /// Its weight.
    fn get_weight(&self) -> (r: Weight)
        ensures
            r == weight_of(self.spec_species()),
    ;
}

/// An elephant.
pub struct Elephant;

/// A hippo.
pub struct Hippo;

/// A lion.
pub struct Lion;

/// A tiger.
pub struct Tiger;

impl Elephant {
    pub fn new() -> Self {
        Elephant
    }
}

impl Hippo {
    pub fn new() -> Self {
        Hippo
    }
}

impl Lion {
    pub fn new() -> Self {
        Lion
    }
}

impl Tiger {
    pub fn new() -> Self {
        Tiger
    }
}

impl Animal for Elephant {
    open spec fn spec_species(&self) -> Species {
        Species::Elephant
    }

    fn species(&self) -> (r: Species) {
        Species::Elephant
    }

    fn get_name(&self) -> (r: &'static str) {
        Species::Elephant.get_name()
    }

    fn get_weight(&self) -> (r: Weight) {
        Species::Elephant.get_weight()
    }
}

impl Animal for Hippo {
    open spec fn spec_species(&self) -> Species {
        Species::Hippo
    }

    fn species(&self) -> (r: Species) {
        Species::Hippo
    }

    fn get_name(&self) -> (r: &'static str) {
        Species::Hippo.get_name()
    }

    fn get_weight(&self) -> (r: Weight) {
        Species::Hippo.get_weight()
    }
}

impl Animal for Lion {
    open spec fn spec_species(&self) -> Species {
        Species::Lion
    }

    fn species(&self) -> (r: Species) {
        Species::Lion
    }

    fn get_name(&self) -> (r: &'static str) {
        Species::Lion.get_name()
    }

    fn get_weight(&self) -> (r: Weight) {
        Species::Lion.get_weight()
    }
}

impl Animal for Tiger {
    open spec fn spec_species(&self) -> Species {
        Species::Tiger
    }

    fn species(&self) -> (r: Species) {
        Species::Tiger
    }

    fn get_name(&self) -> (r: &'static str) {
        Species::Tiger.get_name()
    }

    fn get_weight(&self) -> (r: Weight) {
        Species::Tiger.get_weight()
    }
}

/// Whether an animal of species `present` may follow one of species `previous`:
/// a fight is checked before an overload.
pub open spec fn sanitize(previous: Species, present: Species) -> Result<(), ZooError> {
    if previous == present {
        Err(ZooError::Fight)
    } else if weight_of(previous) == Weight::H && weight_of(present) == Weight::H {
        Err(ZooError::HeavyWeight)
    } else {
        Ok(())
    }
}

/// Refuses two animals of one species in a row.
pub fn is_fight(previous: Species, present: Species) -> (r: Result<(), ZooError>)
    ensures
        r == if previous == present {
            Err::<(), ZooError>(ZooError::Fight)
        } else {
            Ok(())
        },
{
    if previous == present {
        Err(ZooError::Fight)
    } else {
        Ok(())
    }
}

/// Refuses two heavy animals in a row.
pub fn is_heavy(previous: Weight, present: Weight) -> (r: Result<(), ZooError>)
    ensures
        r == if previous == Weight::H && present == Weight::H {
            Err::<(), ZooError>(ZooError::HeavyWeight)
        } else {
            Ok(())
        },
{
    if previous == Weight::H && present == Weight::H {
        Err(ZooError::HeavyWeight)
    } else {
        Ok(())
    }
}

/// Whether `present` may follow `previous`, the fight checked first.
pub fn sanitizer(previous: Species, present: Species) -> (r: Result<(), ZooError>)
    ensures
        r == sanitize(previous, present),
{
    match is_fight(previous, present) {
        Err(e) => return Err(e),
        Ok(()) => {},
    }
    match is_heavy(previous.get_weight(), present.get_weight()) {
        Err(e) => return Err(e),
        Ok(()) => {},
    }
    Ok(())
}

/// A keeper working a lane of animals, front first.
pub struct Zookeeper {
    shared_lane: VecDeque<Species>,
}

impl Zookeeper {
    /// The species in the lane, front first.
    pub closed spec fn lane_view(&self) -> Seq<Species> {
        self.shared_lane@
    }

    /// A keeper taking over `shared_lane`.
    pub fn new(shared_lane: VecDeque<Species>) -> (r: Zookeeper)
        ensures
            r.lane_view() == shared_lane@,
    {
        Zookeeper { shared_lane }
    }

    /// Lets `present` into the back of the lane unless it would fight with, or be a
    /// second heavy animal behind, the animal now at the back; the lane is then
    /// left as it was.
    pub fn push<A: Animal>(&mut self, present: &A) -> (r: Result<(), ZooError>)
        ensures
            old(self).lane_view().len() == 0 ==> r is Ok,
            old(self).lane_view().len() > 0 ==> r == sanitize(
                old(self).lane_view().last(),
                present.spec_species(),
            ),
            r is Ok ==> final(self).lane_view() == old(self).lane_view().push(
                present.spec_species(),
            ),
            r is Err ==> final(self).lane_view() == old(self).lane_view(),
    {
        let s = present.species();
        let n = self.shared_lane.len();
        if n > 0 {
            let previous = self.shared_lane[n - 1];
            match sanitizer(previous, s) {
                Err(e) => return Err(e),
                Ok(()) => {},
            }
        }
        self.shared_lane.push_back(s);
        Ok(())
    }

    /// The lane, front first.
    pub fn lane(&self) -> (r: &VecDeque<Species>)
        ensures
            r@ == self.lane_view(),
    {
        &self.shared_lane
    }

    /// Hands the lane on, to another keeper for instance.
    pub fn into_lane(self) -> (r: VecDeque<Species>)
        ensures
            r@ == self.lane_view(),
    {
        self.shared_lane
    }
}

/// Lets one of each animal meet a keeper, and an elephant into an empty lane.
pub fn dummy() {
    let e = Elephant::new();
    let _h = Hippo::new();
    let _l = Lion::new();
    let _t = Tiger::new();
    let mut z = Zookeeper::new(VecDeque::new());
    let r = z.push(&e);
    assert(r is Ok);
}

} // verus!
