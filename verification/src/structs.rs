use vstd::prelude::*;

verus! {

/// Where the car ahead stands, as seen by the radar of the following car.
#[derive(PartialEq, Eq, Debug, Clone, Copy, Structural)]
pub enum CruiseControlPositionEnum {
    /// The car ahead is visible and further away than the target point.
    VisibleAheadTarget,
    /// The car ahead is visible and closer than the target point.
    VisibleBehindTarget,
    /// The car ahead is visible and exactly at the target point.
    VisibleOnTarget,
    /// There is no car ahead, or it is out of radar reach.
    NotVisible,
}

/// The outcomes of the three position comparisons that decide how the car
/// ahead is seen. Positions are in metres along the road; the caller makes
/// the comparisons on its own number type.
#[derive(PartialEq, Eq, Debug, Clone, Copy, Structural)]
pub struct AheadComparison {
    /// The car ahead is more than the radar reach past this car
    /// (`ahead > own position + 200`).
    pub beyond_radar: bool,
    /// The car ahead is past the target point (`ahead > target`).
    pub past_target: bool,
    /// The car ahead is at the target point (`ahead == target`).
    pub on_target: bool,
}

/// How the car ahead is seen, from the comparisons made on its position.
pub open spec fn position_of(ahead: Option<AheadComparison>) -> CruiseControlPositionEnum {
    match ahead {
        None => CruiseControlPositionEnum::NotVisible,
        Some(c) => if c.beyond_radar {
            CruiseControlPositionEnum::NotVisible
        } else if c.past_target {
            CruiseControlPositionEnum::VisibleAheadTarget
        } else if c.on_target {
            CruiseControlPositionEnum::VisibleOnTarget
        } else {
            CruiseControlPositionEnum::VisibleBehindTarget
        },
    }
}

/// Classifies the car ahead from the comparisons made on its position;
/// `None` stands for no car ahead.
pub fn is_car_ahead_visible(ahead: Option<AheadComparison>) -> (r: CruiseControlPositionEnum)
    ensures
        r == position_of(ahead),
        r == CruiseControlPositionEnum::NotVisible <==> (ahead is None || ahead->0.beyond_radar),
        r == CruiseControlPositionEnum::VisibleAheadTarget <==> (ahead matches Some(c) && !c.beyond_radar
            && c.past_target),
        r == CruiseControlPositionEnum::VisibleOnTarget <==> (ahead matches Some(c) && !c.beyond_radar
            && !c.past_target && c.on_target),
        r == CruiseControlPositionEnum::VisibleBehindTarget <==> (ahead matches Some(c)
            && !c.beyond_radar && !c.past_target && !c.on_target),
{
    match ahead {
        Some(c) => {
            if c.beyond_radar {
                return CruiseControlPositionEnum::NotVisible;
            }
            if c.past_target {
                CruiseControlPositionEnum::VisibleAheadTarget
            } else if c.on_target {
                CruiseControlPositionEnum::VisibleOnTarget
            } else {
                CruiseControlPositionEnum::VisibleBehindTarget
            }
        },
        None => CruiseControlPositionEnum::NotVisible,
    }
}

/// The rule by which the acceleration delta of one tick is computed, chosen
/// from the position of the car ahead.
#[derive(PartialEq, Eq, Debug, Clone, Copy, Structural)]
pub enum AccelerationRule {
    /// Nothing to follow: the full delta (100) toward cruise speed.
    FullDelta,
    /// On target: no change (a delta of 0).
    NoChange,
    /// Past target: the fraction of the way from the target point to the end
    /// of radar reach at which the car ahead stands, times the acceleration.
    AccelerateByGap,
    /// Short of target: the negated fraction of the way from the minimum gap
    /// to the target point at which the car ahead stands, times the braking.
    BrakeByGap,
}

/// The rule that a position of the car ahead calls for.
pub open spec fn rule_for(position: CruiseControlPositionEnum) -> AccelerationRule {
    match position {
        CruiseControlPositionEnum::NotVisible => AccelerationRule::FullDelta,
        CruiseControlPositionEnum::VisibleOnTarget => AccelerationRule::NoChange,
        CruiseControlPositionEnum::VisibleAheadTarget => AccelerationRule::AccelerateByGap,
        CruiseControlPositionEnum::VisibleBehindTarget => AccelerationRule::BrakeByGap,
    }
}

/// Chooses how the acceleration delta is computed, from the comparisons made
/// on the position of the car ahead (`None`: no car ahead).
pub fn new_acceleration_rule(ahead: Option<AheadComparison>) -> (r: AccelerationRule)
    ensures
        r == rule_for(position_of(ahead)),
        r == AccelerationRule::FullDelta <==> (ahead is None || ahead->0.beyond_radar),
        r == AccelerationRule::AccelerateByGap <==> (ahead matches Some(c) && !c.beyond_radar
            && c.past_target),
        r == AccelerationRule::NoChange <==> (ahead matches Some(c) && !c.beyond_radar
            && !c.past_target && c.on_target),
        r == AccelerationRule::BrakeByGap <==> (ahead matches Some(c) && !c.beyond_radar
            && !c.past_target && !c.on_target),
{
    match is_car_ahead_visible(ahead) {
        CruiseControlPositionEnum::NotVisible => AccelerationRule::FullDelta,
        CruiseControlPositionEnum::VisibleOnTarget => AccelerationRule::NoChange,
        CruiseControlPositionEnum::VisibleAheadTarget => AccelerationRule::AccelerateByGap,
        CruiseControlPositionEnum::VisibleBehindTarget => AccelerationRule::BrakeByGap,
    }
}

} // verus!
