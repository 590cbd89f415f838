//! Analysis engines: evidence in, readiness, risks, compatibility,
//! decisions and predictions out. No engine probes the system.
pub mod compatibility;
pub mod decision;
pub mod prediction;
pub mod readiness;
pub mod risk;

use crate::analysis::readiness::{
    compute_categories, headers_category, kernel_category, lemma_star_total_bound,
    module_dev_category, overall_rating, rust_category, spec_overall_rating, spec_stars_label,
    stars_label, debug_category, toolchain_category, CategoryScore, Readiness,
};
use crate::analysis::risk::{identify_risks, risk_views, spec_risks, Risk};
use crate::evidence::Evidence;
use vstd::prelude::*;

verus! {

/// The readiness categories of `ev`: Kernel, Headers, Module Dev, Rust,
/// Debug and Toolchain, in that order, with their stars and empty notes.
pub open spec fn categories_of(cats: Seq<CategoryScore>, ev: Seq<Evidence>) -> bool {
    &&& cats.len() == 6
    &&& cats[0].name@ == "Kernel"@ && cats[0].stars == kernel_category(ev)
    &&& cats[1].name@ == "Headers"@ && cats[1].stars == headers_category(ev)
    &&& cats[2].name@ == "Module Dev"@ && cats[2].stars == module_dev_category(ev)
    &&& cats[3].name@ == "Rust"@ && cats[3].stars == rust_category(ev)
    &&& cats[4].name@ == "Debug"@ && cats[4].stars == debug_category(ev)
    &&& cats[5].name@ == "Toolchain"@ && cats[5].stars == toolchain_category(ev)
    &&& forall|i: int| 0 <= i < 6 ==> (#[trigger] cats[i]).note@ == ""@
}

/// Analyzes evidence into readiness and risks; each engine works on the
/// same evidence independently.
pub fn analyze(evidence: &[Evidence]) -> (r: (Readiness, Vec<Risk>))
    ensures
        categories_of(r.0.categories@, evidence@),
        r.0.overall@ == spec_overall_rating(r.0.categories@),
        r.0.stars@ == spec_stars_label(r.0.categories@),
        risk_views(r.1@) == spec_risks(evidence@),
{
    let categories = compute_categories(evidence);
    let overall = overall_rating(categories.as_slice());
    let risks = identify_risks(evidence);
    proof {
        assert forall|i: int| 0 <= i < categories@.len() implies (#[trigger] categories@[i]).stars
            <= 5 by {
            assert(i == 0 || i == 1 || i == 2 || i == 3 || i == 4 || i == 5);
        }
        lemma_star_total_bound(categories@);
    }
    let stars_str = stars_label(categories.as_slice());
    (Readiness { overall, stars: stars_str, categories }, risks)
}

} // verus!
