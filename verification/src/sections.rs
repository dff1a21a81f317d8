//! Which strain sections the backload spike penalty reaches.
//!
//! Maps that dump their difficulty into the final moments have the peaks of
//! their last 15% of sections pulled towards a threshold taken from the first
//! 85%; this module decides where that split lies and whether it applies.
use vstd::prelude::*;

verus! {

/// The penalty applies only to maps with more than this many sections.
pub const MIN_PENALISED_SECTIONS: usize = 5;

/// The number of sections in the first 85% of `n_sections`, rounded down.
pub open spec fn spec_early_section_count(n_sections: nat) -> nat {
    (n_sections * 85 / 100) as nat
}

/// The first index of the penalised tail when the penalty applies.
pub open spec fn spec_backload_start(n_sections: nat) -> Option<nat> {
    if n_sections > MIN_PENALISED_SECTIONS && spec_early_section_count(n_sections) > 0 {
        Some(spec_early_section_count(n_sections))
    } else {
        None
    }
}

/// The early count is the floor of 85% of the sections: the largest count
/// whose hundredfold does not exceed 85 times the sections.
pub proof fn lemma_early_section_count(n_sections: nat)
    ensures
        spec_early_section_count(n_sections) * 100 <= n_sections * 85,
        n_sections * 85 < (spec_early_section_count(n_sections) + 1) * 100,
{
    let e = spec_early_section_count(n_sections);
    assert(e * 100 <= n_sections * 85 < (e + 1) * 100) by (nonlinear_arith)
        requires
            e == n_sections * 85 / 100,
    ;
}

/// When the penalty applies, its tail starts at the floor of 85% of the
/// sections, so it covers the last 15%; it applies exactly to maps with more
/// than `MIN_PENALISED_SECTIONS` sections.
pub proof fn lemma_backload_start(n_sections: nat)
    ensures
        spec_backload_start(n_sections) is Some <==> n_sections > MIN_PENALISED_SECTIONS,
        spec_backload_start(n_sections) matches Some(s) ==> s * 100 <= n_sections * 85 < (s + 1)
            * 100,
        spec_backload_start(n_sections) matches Some(s) ==> 0 < s < n_sections,
{
    lemma_early_section_count(n_sections);
    lemma_backload_applies_iff(n_sections);
    if spec_backload_start(n_sections) is Some {
        lemma_backload_split_nonempty(n_sections);
    }
}

/// `floor(n_sections * 0.85)`, computed without overflow.
pub fn early_section_count(n_sections: usize) -> (r: usize)
    ensures
        r == spec_early_section_count(n_sections as nat),
        r <= n_sections,
        r * 100 <= n_sections * 85 < (r + 1) * 100,
{
    proof {
        lemma_early_section_count(n_sections as nat);
    }
    let whole = n_sections / 20;
    let rest = n_sections % 20;
    proof {
        assert(n_sections == whole * 20 + rest);
        assert(n_sections * 85 / 100 == whole * 17 + rest * 17 / 20) by (nonlinear_arith)
            requires
                n_sections == whole * 20 + rest,
                0 <= rest < 20,
                whole >= 0,
        ;
        assert(whole * 17 <= n_sections) by (nonlinear_arith)
            requires
                n_sections == whole * 20 + rest,
                whole >= 0,
                rest >= 0,
        ;
    }
    whole * 17 + rest * 17 / 20
}

/// Where the penalised tail of the strain peaks begins: `Some(early)` when
/// there are more than `MIN_PENALISED_SECTIONS` sections and the first 85%
/// is not empty, the tail then being the sections `early..n_sections`;
/// `None` when no section is penalised.
pub fn backload_start(n_sections: usize) -> (r: Option<usize>)
    ensures
        r == (match spec_backload_start(n_sections as nat) {
            Some(e) => Some(e as usize),
            None => None::<usize>,
        }),
        r is Some <==> n_sections > MIN_PENALISED_SECTIONS,
        r matches Some(s) ==> s * 100 <= n_sections * 85 < (s + 1) * 100,
        r matches Some(s) ==> 0 < s < n_sections,
{
    proof {
        lemma_backload_start(n_sections as nat);
    }
    let early = early_section_count(n_sections);
    if n_sections > MIN_PENALISED_SECTIONS && early > 0 {
        Some(early)
    } else {
        None
    }
}

/// Whenever the penalty applies, both parts are non-empty: the baseline
/// keeps at least one section and the tail holds at least one.
pub proof fn lemma_backload_split_nonempty(n_sections: nat)
    requires
        spec_backload_start(n_sections) is Some,
    ensures
        0 < spec_backload_start(n_sections)->0 < n_sections,
{
    assert(n_sections * 85 / 100 < n_sections) by (nonlinear_arith)
        requires
            n_sections > 5,
    ;
}

/// The penalty applies exactly to maps with more than
/// `MIN_PENALISED_SECTIONS` sections.
pub proof fn lemma_backload_applies_iff(n_sections: nat)
    ensures
        spec_backload_start(n_sections) is Some <==> n_sections > MIN_PENALISED_SECTIONS,
{
    if n_sections > 5 {
        assert(n_sections * 85 / 100 >= 5) by (nonlinear_arith)
            requires
                n_sections > 5,
        ;
    }
}

} // verus!
