//! Which filter and format detectors are registered, and in what order.
use vstd::prelude::*;

verus! {

/// Which detectors of one family to register.
pub enum Registration {
    /// Every detector the engine knows.
    All,
    /// Only the detectors with these engine codes, in this order.
    Only(Vec<i32>),
}

/// The detectors to register on a handle before it is opened.
pub struct DetectionConfig {
    pub filters: Registration,
    pub formats: Registration,
}

/// One registration call to make on a handle.
#[derive(Clone, Copy, Debug, PartialEq, Eq, Structural)]
pub enum Detector {
    AllFilters,
    Filter(i32),
    AllFormats,
    Format(i32),
}

/// The registrations of the filter family.
pub open spec fn filter_plan(r: Registration) -> Seq<Detector> {
    match r {
        Registration::All => seq![Detector::AllFilters],
        Registration::Only(codes) => codes@.map_values(|c: i32| Detector::Filter(c)),
    }
}

/// The registrations of the format family.
pub open spec fn format_plan(r: Registration) -> Seq<Detector> {
    match r {
        Registration::All => seq![Detector::AllFormats],
        Registration::Only(codes) => codes@.map_values(|c: i32| Detector::Format(c)),
    }
}

/// Every registration a configuration asks for: the filters first, then the
/// formats, each family in the order given.
pub open spec fn detection_plan_of(config: DetectionConfig) -> Seq<Detector> {
    filter_plan(config.filters) + format_plan(config.formats)
}

impl DetectionConfig {
    /// The configuration that registers every filter and every format.
    pub fn all() -> (r: DetectionConfig)
        ensures
            r.filters is All,
            r.formats is All,
            detection_plan_of(r) == seq![Detector::AllFilters, Detector::AllFormats],
    {
        let r = DetectionConfig { filters: Registration::All, formats: Registration::All };
        assert(detection_plan_of(r) =~= seq![Detector::AllFilters, Detector::AllFormats]);
        r
    }
}

/// Appends the registrations of one family to `plan`.
fn push_family(plan: &mut Vec<Detector>, r: &Registration, filters: bool)
    ensures
        final(plan)@ == old(plan)@ + (if filters {
            filter_plan(*r)
        } else {
            format_plan(*r)
        }),
{
    let ghost start = plan@;
    let ghost family = if filters {
        filter_plan(*r)
    } else {
        format_plan(*r)
    };
    match r {
        Registration::All => {
            if filters {
                plan.push(Detector::AllFilters);
            } else {
                plan.push(Detector::AllFormats);
            }
            assert(plan@ =~= start + family);
        },
        Registration::Only(codes) => {
            let mut i: usize = 0;
            while i < codes.len()
                invariant
                    i <= codes@.len(),
                    family == codes@.map_values(
                        |c: i32|
                            if filters {
                                Detector::Filter(c)
                            } else {
                                Detector::Format(c)
                            },
                    ),
                    plan@ =~= start + family.subrange(0, i as int),
                decreases codes@.len() - i,
            {
                if filters {
                    plan.push(Detector::Filter(codes[i]));
                } else {
                    plan.push(Detector::Format(codes[i]));
                }
                i = i + 1;
                assert(family.subrange(0, i as int) =~= family.subrange(0, i - 1) + seq![
                    family[i - 1],
                ]);
            }
            assert(family.subrange(0, i as int) =~= family);
        },
    }
}

/// The registration calls to make, in the fixed order of
/// `detection_plan_of`: the same configuration always gives the same calls.
pub fn detection_plan(config: &DetectionConfig) -> (r: Vec<Detector>)
    ensures
        r@ == detection_plan_of(*config),
{
    let mut plan: Vec<Detector> = Vec::new();
    push_family(&mut plan, &config.filters, true);
    push_family(&mut plan, &config.formats, false);
    assert(plan@ =~= detection_plan_of(*config));
    plan
}

} // verus!
