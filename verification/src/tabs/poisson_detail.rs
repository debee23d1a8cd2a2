use vstd::prelude::*;

use crate::text::str_eq;

verus! {

/// The boundary condition that a Poisson solver implies, for display.
pub open spec fn bc_label(poisson_type: Seq<char>) -> Seq<char> {
    if poisson_type == "fft_periodic"@ || poisson_type == "fft"@ {
        "Periodic"@
    } else if poisson_type == "fft_isolated"@ {
        "Isolated (Hockney-Eastwood zero-padding)"@
    } else if poisson_type == "multigrid"@ {
        "Configurable (multigrid)"@
    } else if poisson_type == "spherical_harmonics"@ {
        "Spherical"@
    } else if poisson_type == "tree"@ {
        "Open (tree)"@
    } else if poisson_type == ""@ {
        "N/A"@
    } else {
        poisson_type
    }
}

/// Names the boundary condition of a Poisson solver; an unknown solver name
/// is shown as it is.
pub fn derive_bc_label(poisson_type: &str) -> (s: String)
    ensures
        s@ == bc_label(poisson_type@),
{
    if str_eq(poisson_type, "fft_periodic") || str_eq(poisson_type, "fft") {
        String::from_str("Periodic")
    } else if str_eq(poisson_type, "fft_isolated") {
        String::from_str("Isolated (Hockney-Eastwood zero-padding)")
    } else if str_eq(poisson_type, "multigrid") {
        String::from_str("Configurable (multigrid)")
    } else if str_eq(poisson_type, "spherical_harmonics") {
        String::from_str("Spherical")
    } else if str_eq(poisson_type, "tree") {
        String::from_str("Open (tree)")
    } else if str_eq(poisson_type, "") {
        String::from_str("N/A")
    } else {
        String::from_str(poisson_type)
    }
}

} // verus!
