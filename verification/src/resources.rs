//! The five signed resource counters and their additive merge.

use vstd::prelude::*;

verus! {

/// Mathematical image of [`Resources`]: the same five counters as
/// unbounded integers.
#[verifier::ext_equal]
pub ghost struct ResourcesModel {
    pub instant_co2: int,
    pub tech_economy: int,
    pub sustainability: int,
    pub education_culture: int,
    pub yearly_co2: int,
}

pub open spec fn res_model(
    instant_co2: int,
    tech_economy: int,
    sustainability: int,
    education_culture: int,
    yearly_co2: int,
) -> ResourcesModel {
    ResourcesModel { instant_co2, tech_economy, sustainability, education_culture, yearly_co2 }
}

/// Component-wise sum; the only way two resource values are ever combined.
pub open spec fn res_plus(a: ResourcesModel, b: ResourcesModel) -> ResourcesModel {
    ResourcesModel {
        instant_co2: a.instant_co2 + b.instant_co2,
        tech_economy: a.tech_economy + b.tech_economy,
        sustainability: a.sustainability + b.sustainability,
        education_culture: a.education_culture + b.education_culture,
        yearly_co2: a.yearly_co2 + b.yearly_co2,
    }
}

pub open spec fn in_i16(x: int) -> bool {
    -0x8000 <= x <= 0x7fff
}

/// Every component of the sum stays representable in the counters' type.
pub open spec fn res_plus_fits(a: ResourcesModel, b: ResourcesModel) -> bool {
    &&& in_i16(a.instant_co2 + b.instant_co2)
    &&& in_i16(a.tech_economy + b.tech_economy)
    &&& in_i16(a.sustainability + b.sustainability)
    &&& in_i16(a.education_culture + b.education_culture)
    &&& in_i16(a.yearly_co2 + b.yearly_co2)
}

/// Five signed counters; combined by component-wise addition only, never
/// clamped, so every counter may go negative.
#[derive(Clone, Copy, PartialEq, Eq, Structural, Debug)]
pub struct Resources {
    pub instant_co2: i16,
    pub tech_economy: i16,
    pub sustainability: i16,
    pub education_culture: i16,
    pub yearly_co2: i16,
}

impl View for Resources {
    type V = ResourcesModel;

    open spec fn view(&self) -> ResourcesModel {
        ResourcesModel {
            instant_co2: self.instant_co2 as int,
            tech_economy: self.tech_economy as int,
            sustainability: self.sustainability as int,
            education_culture: self.education_culture as int,
            yearly_co2: self.yearly_co2 as int,
        }
    }
}

impl Resources {
    pub fn new(
        instant_co2: i16,
        tech_economy: i16,
        sustainability: i16,
        education_culture: i16,
        yearly_co2: i16,
    ) -> (r: Resources)
        ensures
            r@ == res_model(
                instant_co2 as int,
                tech_economy as int,
                sustainability as int,
                education_culture as int,
                yearly_co2 as int,
            ),
    {
        Resources { instant_co2, tech_economy, sustainability, education_culture, yearly_co2 }
    }

    /// Fold `other` into `self`, component by component.
    pub fn accumulate(&mut self, other: Resources)
        requires
            res_plus_fits(old(self)@, other@),
        ensures
            final(self)@ == res_plus(old(self)@, other@),
    {
        self.instant_co2 = self.instant_co2 + other.instant_co2;
        self.tech_economy = self.tech_economy + other.tech_economy;
        self.sustainability = self.sustainability + other.sustainability;
        self.education_culture = self.education_culture + other.education_culture;
        self.yearly_co2 = self.yearly_co2 + other.yearly_co2;
    }
}

} // verus!
