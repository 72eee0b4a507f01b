//! The brew rotation: which coffee was last brewed and which to brew next.
//! Another roast is queued only during the morning (before eleven, local
//! time); the hour is sampled once per decision and the rule itself is a
//! pure function of that hour.

use chrono::Timelike;
use vstd::prelude::*;

verus! {

#[derive(PartialEq, Eq, Structural, Copy, Clone, Debug)]
pub enum CoffeeRoast {
    Pike,
    Blonde,
    Dark,
}

/// The roast's display name, for use in contracts.
pub open spec fn spec_roast_str(r: CoffeeRoast) -> Seq<char> {
    match r {
        CoffeeRoast::Pike => "Pike"@,
        CoffeeRoast::Blonde => "Blonde"@,
        CoffeeRoast::Dark => "Dark"@,
    }
}

impl CoffeeRoast {
    pub fn to_string(&self) -> (r: String)
        ensures
            r@ == spec_roast_str(*self),
    {
        match self {
            CoffeeRoast::Blonde => String::from_str("Blonde"),
            CoffeeRoast::Dark => String::from_str("Dark"),
            CoffeeRoast::Pike => String::from_str("Pike"),
        }
    }
}

/// The last roast brewed, and the roast queued to brew next, if any.
#[derive(Copy, Clone, Debug)]
pub struct CoffeesToBrew(pub CoffeeRoast, pub Option<CoffeeRoast>);

/// The display form: the last roast, a comma, and the queued roast if any.
pub open spec fn spec_coffees_str(c: CoffeesToBrew) -> Seq<char> {
    spec_roast_str(c.0) + ", "@ + match c.1 {
        Some(r) => spec_roast_str(r),
        None => Seq::<char>::empty(),
    }
}

/// Relies on chrono's `Local::now` and `Timelike::hour`: the hour of day is
/// in `0..24`.
#[verifier::external_body]
fn local_hour() -> (h: u32)
    ensures
        h < 24,
{
    chrono::Local::now().hour()
}

impl CoffeesToBrew {
    /// What follows this pair in the rotation at the given hour: Pike is
    /// always brewed again; a second roast is queued only before eleven and
    /// only if one was queued now — Blonde after Dark (or after none queued
    /// behind Pike), Dark after Blonde.
    pub open spec fn spec_next(self, hour: u32) -> CoffeesToBrew {
        CoffeesToBrew(
            CoffeeRoast::Pike,
            if hour < 11 {
                match self.1 {
                    Some(CoffeeRoast::Blonde) => Some(CoffeeRoast::Dark),
                    Some(_) => Some(CoffeeRoast::Blonde),
                    None => None,
                }
            } else {
                None
            },
        )
    }

    pub fn to_string(&self) -> (r: String)
        ensures
            r@ == spec_coffees_str(*self),
    {
        let mut val = self.0.to_string();
        val.append(", ");
        if let Some(roast) = &self.1 {
            let queued = roast.to_string();
            val.append(queued.as_str());
        }
        proof {
            assert(val@ =~= spec_coffees_str(*self));
        }
        val
    }

    /// The rotation rule applied at a known hour of day.
    pub fn next_for_hour(&self, hour: u32) -> (r: CoffeesToBrew)
        ensures
            r == self.spec_next(hour),
    {
        let mut c = CoffeesToBrew(CoffeeRoast::Pike, None);
        if hour < 11 {
            if let Some(roast) = &self.1 {
                match roast {
                    CoffeeRoast::Blonde => {
                        c.1 = Some(CoffeeRoast::Dark);
                    },
                    _ => {
                        c.1 = Some(CoffeeRoast::Blonde);
                    },
                }
            }
        }
        c
    }

    /// The rotation rule applied at the current local hour. Whatever the
    /// clock read, the result follows the rule for some hour of day.
    pub fn get_next(&self) -> (r: CoffeesToBrew)
        ensures
            exists|h: u32| h < 24 && r == self.spec_next(h),
            r.0 == CoffeeRoast::Pike,
    {
        let h = local_hour();
        let r = self.next_for_hour(h);
        proof {
            assert(h < 24 && r == self.spec_next(h));
        }
        r
    }
}

} // verus!
