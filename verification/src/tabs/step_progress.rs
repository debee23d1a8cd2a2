//! The Run Control tab's step-progress panel: which integrator a running
//! simulation uses, as told by the phases it reports; the build and step
//! phases listed with the one under way marked; the part of the list that a
//! panel of a given height shows; and the count of phases done.

use vstd::prelude::*;

verus! {

/// A phase of building or stepping a simulation, as the solver reports it.
#[derive(Debug, Clone, Copy, PartialEq, Eq, Structural)]
pub enum StepPhase {
    Idle,
    BuildDomain,
    BuildIC,
    BuildPoisson,
    BuildIntegrator,
    BuildExitConditions,
    BuildAssembly,
    DriftHalf1,
    ComputeDensity,
    PoissonSolve,
    ComputeAcceleration,
    Kick,
    DriftHalf2,
    YoshidaDrift1,
    YoshidaKick1,
    YoshidaDrift2,
    YoshidaKick2,
    YoshidaDrift3,
    YoshidaKick3,
    YoshidaDrift4,
    RkeiStage1,
    RkeiStage2,
    RkeiStage3,
    UnsplitStage1,
    UnsplitStage2,
    UnsplitStage3,
    UnsplitStage4,
    LoMaC,
    PostDensity,
    Diagnostics,
    StepComplete,
    /// A phase that the panel does not list.
    Other,
}

/// Whether the phase is one of the six phases of building the simulation.
pub open spec fn is_build(p: StepPhase) -> bool {
    match p {
        StepPhase::BuildDomain | StepPhase::BuildIC | StepPhase::BuildPoisson | StepPhase::BuildIntegrator
        | StepPhase::BuildExitConditions | StepPhase::BuildAssembly => true,
        _ => false,
    }
}

impl StepPhase {
    /// Whether the phase builds the simulation: see `is_build`.
    pub fn is_build(&self) -> (b: bool)
        ensures
            b == is_build(*self),
    {
        match self {
            StepPhase::BuildDomain | StepPhase::BuildIC | StepPhase::BuildPoisson | StepPhase::BuildIntegrator
            | StepPhase::BuildExitConditions | StepPhase::BuildAssembly => true,
            _ => false,
        }
    }
}

/// The time integrator that the reported phases reveal.
#[derive(Debug, Clone, Copy, PartialEq, Eq, Structural)]
pub enum Integrator {
    Strang,
    Yoshida,
    Lie,
    Rkei,
    /// An unsplit scheme with its number of stages.
    Unsplit(u8),
}

/// The integrator after a reported phase: a phase that only one scheme has
/// names it (a drift or kick of the first half is Lie's when the step has two
/// sub-steps, else Strang's); a build phase, a phase after the advance, or an
/// idle one leaves the earlier guess, so that it outlives the advance.
pub open spec fn detected(prev: Integrator, p: StepPhase, sub_step_total: u8) -> Integrator {
    match p {
        StepPhase::YoshidaDrift1 | StepPhase::YoshidaKick1 | StepPhase::YoshidaDrift2 | StepPhase::YoshidaKick2
        | StepPhase::YoshidaDrift3 | StepPhase::YoshidaKick3 | StepPhase::YoshidaDrift4 => Integrator::Yoshida,
        StepPhase::RkeiStage1 | StepPhase::RkeiStage2 | StepPhase::RkeiStage3 => Integrator::Rkei,
        StepPhase::UnsplitStage1 | StepPhase::UnsplitStage2 | StepPhase::UnsplitStage3
        | StepPhase::UnsplitStage4 => Integrator::Unsplit(sub_step_total),
        StepPhase::DriftHalf1 | StepPhase::Kick => if sub_step_total == 2 {
            Integrator::Lie
        } else {
            Integrator::Strang
        },
        StepPhase::PoissonSolve | StepPhase::ComputeDensity | StepPhase::ComputeAcceleration
        | StepPhase::DriftHalf2 => Integrator::Strang,
        _ => prev,
    }
}

/// The integrator after a reported phase: see `detected`.
pub fn detect_integrator(prev: Integrator, p: StepPhase, sub_step_total: u8) -> (i: Integrator)
    ensures
        i == detected(prev, p, sub_step_total),
{
    match p {
        StepPhase::YoshidaDrift1 | StepPhase::YoshidaKick1 | StepPhase::YoshidaDrift2 | StepPhase::YoshidaKick2
        | StepPhase::YoshidaDrift3 | StepPhase::YoshidaKick3 | StepPhase::YoshidaDrift4 => Integrator::Yoshida,
        StepPhase::RkeiStage1 | StepPhase::RkeiStage2 | StepPhase::RkeiStage3 => Integrator::Rkei,
        StepPhase::UnsplitStage1 | StepPhase::UnsplitStage2 | StepPhase::UnsplitStage3
        | StepPhase::UnsplitStage4 => Integrator::Unsplit(sub_step_total),
        StepPhase::DriftHalf1 | StepPhase::Kick => if sub_step_total == 2 {
            Integrator::Lie
        } else {
            Integrator::Strang
        },
        StepPhase::PoissonSolve | StepPhase::ComputeDensity | StepPhase::ComputeAcceleration
        | StepPhase::DriftHalf2 => Integrator::Strang,
        _ => prev,
    }
}

/// Whether building is over after a reported phase: it latches once a phase
/// that is neither a build phase nor idle is seen.
pub open spec fn build_done_after(done: bool, p: StepPhase) -> bool {
    done || (!is_build(p) && p != StepPhase::Idle)
}

/// A listed phase: the phase it waits for (none for a stage that the solver
/// has no phase for) and its label.
pub type PhaseEntry = (Option<StepPhase>, &'static str);

/// Listed phases with their labels as texts.
pub open spec fn entries_view(v: Seq<PhaseEntry>) -> Seq<(Option<StepPhase>, Seq<char>)> {
    v.map_values(|e: PhaseEntry| (e.0, e.1@))
}

/// The six build phases, always listed first.
pub open spec fn build_list() -> Seq<(Option<StepPhase>, Seq<char>)> {
    seq![
        (Some(StepPhase::BuildDomain), "Domain"@),
        (Some(StepPhase::BuildIC), "IC generation"@),
        (Some(StepPhase::BuildPoisson), "Poisson solver"@),
        (Some(StepPhase::BuildIntegrator), "Integrator"@),
        (Some(StepPhase::BuildExitConditions), "Exit conditions"@),
        (Some(StepPhase::BuildAssembly), "Assembly"@),
    ]
}

/// The phase of the unsplit scheme's stage `k`, counted from zero: the solver
/// has phases for the first four.
pub open spec fn unsplit_phase(k: int) -> Option<StepPhase> {
    if k == 0 {
        Some(StepPhase::UnsplitStage1)
    } else if k == 1 {
        Some(StepPhase::UnsplitStage2)
    } else if k == 2 {
        Some(StepPhase::UnsplitStage3)
    } else if k == 3 {
        Some(StepPhase::UnsplitStage4)
    } else {
        None
    }
}

/// The label of the unsplit scheme's stage `k`, counted from zero.
pub open spec fn unsplit_label(k: int) -> Seq<char> {
    if k == 0 {
        "Stage 1"@
    } else if k == 1 {
        "Stage 2"@
    } else if k == 2 {
        "Stage 3"@
    } else if k == 3 {
        "Stage 4"@
    } else {
        "Stage ?"@
    }
}

/// The phases of one step of the integrator.
pub open spec fn integrator_list(i: Integrator) -> Seq<(Option<StepPhase>, Seq<char>)> {
    match i {
        Integrator::Yoshida => seq![
            (Some(StepPhase::YoshidaDrift1), "Drift 1"@),
            (Some(StepPhase::YoshidaKick1), "Kick 1"@),
            (Some(StepPhase::YoshidaDrift2), "Drift 2"@),
            (Some(StepPhase::YoshidaKick2), "Kick 2"@),
            (Some(StepPhase::YoshidaDrift3), "Drift 3"@),
            (Some(StepPhase::YoshidaKick3), "Kick 3"@),
            (Some(StepPhase::YoshidaDrift4), "Drift 4"@),
        ],
        Integrator::Rkei => seq![
            (Some(StepPhase::RkeiStage1), "Stage 1"@),
            (Some(StepPhase::RkeiStage2), "Stage 2"@),
            (Some(StepPhase::RkeiStage3), "Stage 3"@),
        ],
        Integrator::Unsplit(n) => Seq::new(n as nat, |k: int| (unsplit_phase(k), unsplit_label(k))),
        Integrator::Lie => seq![(Some(StepPhase::DriftHalf1), "Drift"@), (Some(StepPhase::Kick), "Kick"@)],
        Integrator::Strang => seq![
            (Some(StepPhase::DriftHalf1), "Drift ½"@),
            (Some(StepPhase::PoissonSolve), "Poisson solve"@),
            (Some(StepPhase::Kick), "Kick"@),
            (Some(StepPhase::DriftHalf2), "Drift ½"@),
        ],
    }
}

/// The phases of a step: the integrator's, then the LoMaC correction when the
/// run has one, then the density update and the diagnostics.
pub open spec fn step_list(i: Integrator, has_lomac: bool) -> Seq<(Option<StepPhase>, Seq<char>)> {
    let tail: Seq<(Option<StepPhase>, Seq<char>)> = seq![
        (Some(StepPhase::PostDensity), "Post density"@),
        (Some(StepPhase::Diagnostics), "Diagnostics"@),
    ];
    if has_lomac {
        integrator_list(i).push((Some(StepPhase::LoMaC), "LoMaC"@)) + tail
    } else {
        integrator_list(i) + tail
    }
}

/// The six build phases: see `build_list`.
pub fn build_phases() -> (v: Vec<PhaseEntry>)
    ensures
        entries_view(v@) == build_list(),
{
    let v: Vec<PhaseEntry> = vec![
        (Some(StepPhase::BuildDomain), "Domain"),
        (Some(StepPhase::BuildIC), "IC generation"),
        (Some(StepPhase::BuildPoisson), "Poisson solver"),
        (Some(StepPhase::BuildIntegrator), "Integrator"),
        (Some(StepPhase::BuildExitConditions), "Exit conditions"),
        (Some(StepPhase::BuildAssembly), "Assembly"),
    ];
    assert(entries_view(v@) =~= build_list());
    v
}

fn unsplit_entry(k: u8) -> (e: PhaseEntry)
    ensures
        e.0 == unsplit_phase(k as int),
        e.1@ == unsplit_label(k as int),
{
    if k == 0 {
        (Some(StepPhase::UnsplitStage1), "Stage 1")
    } else if k == 1 {
        (Some(StepPhase::UnsplitStage2), "Stage 2")
    } else if k == 2 {
        (Some(StepPhase::UnsplitStage3), "Stage 3")
    } else if k == 3 {
        (Some(StepPhase::UnsplitStage4), "Stage 4")
    } else {
        (None, "Stage ?")
    }
}

fn integrator_phases(i: Integrator) -> (v: Vec<PhaseEntry>)
    ensures
        entries_view(v@) == integrator_list(i),
{
    match i {
        Integrator::Yoshida => {
            let v: Vec<PhaseEntry> = vec![
                (Some(StepPhase::YoshidaDrift1), "Drift 1"),
                (Some(StepPhase::YoshidaKick1), "Kick 1"),
                (Some(StepPhase::YoshidaDrift2), "Drift 2"),
                (Some(StepPhase::YoshidaKick2), "Kick 2"),
                (Some(StepPhase::YoshidaDrift3), "Drift 3"),
                (Some(StepPhase::YoshidaKick3), "Kick 3"),
                (Some(StepPhase::YoshidaDrift4), "Drift 4"),
            ];
            assert(entries_view(v@) =~= integrator_list(i));
            v
        },
        Integrator::Rkei => {
            let v: Vec<PhaseEntry> = vec![
                (Some(StepPhase::RkeiStage1), "Stage 1"),
                (Some(StepPhase::RkeiStage2), "Stage 2"),
                (Some(StepPhase::RkeiStage3), "Stage 3"),
            ];
            assert(entries_view(v@) =~= integrator_list(i));
            v
        },
        Integrator::Unsplit(n) => {
            let mut v: Vec<PhaseEntry> = Vec::new();
            let mut k: u8 = 0;
            while k < n
                invariant
                    k <= n,
                    entries_view(v@) =~= Seq::new(k as nat, |j: int| (unsplit_phase(j), unsplit_label(j))),
                decreases n - k,
            {
                let e = unsplit_entry(k);
                let ghost before = entries_view(v@);
                v.push(e);
                assert(entries_view(v@) =~= before.push((e.0, e.1@)));
                k = k + 1;
            }
            v
        },
        Integrator::Lie => {
            let v: Vec<PhaseEntry> = vec![(Some(StepPhase::DriftHalf1), "Drift"), (Some(StepPhase::Kick), "Kick")];
            assert(entries_view(v@) =~= integrator_list(i));
            v
        },
        Integrator::Strang => {
            let v: Vec<PhaseEntry> = vec![
                (Some(StepPhase::DriftHalf1), "Drift ½"),
                (Some(StepPhase::PoissonSolve), "Poisson solve"),
                (Some(StepPhase::Kick), "Kick"),
                (Some(StepPhase::DriftHalf2), "Drift ½"),
            ];
            assert(entries_view(v@) =~= integrator_list(i));
            v
        },
    }
}

/// The phases of a step: see `step_list`.
pub fn step_phases(i: Integrator, has_lomac: bool) -> (v: Vec<PhaseEntry>)
    ensures
        entries_view(v@) == step_list(i, has_lomac),
{
    let mut v = integrator_phases(i);
    if has_lomac {
        v.push((Some(StepPhase::LoMaC), "LoMaC"));
    }
    v.push((Some(StepPhase::PostDensity), "Post density"));
    v.push((Some(StepPhase::Diagnostics), "Diagnostics"));
    proof {
        if has_lomac {
            assert(entries_view(v@) =~= step_list(i, has_lomac));
        } else {
            assert(entries_view(v@) =~= step_list(i, has_lomac));
        }
    }
    v
}

/// Whether `i` is the first place of the list that waits for `p`.
pub open spec fn is_first_place(list: Seq<(Option<StepPhase>, Seq<char>)>, p: StepPhase, i: int) -> bool {
    &&& 0 <= i < list.len()
    &&& list[i].0 == Some(p)
    &&& forall|k: int| 0 <= k < i ==> list[k].0 != Some(p)
}

/// The first place of the list that waits for `p`, if any.
#[verifier::opaque]
pub open spec fn place_of(list: Seq<(Option<StepPhase>, Seq<char>)>, p: StepPhase) -> Option<int> {
    if exists|i: int| is_first_place(list, p, i) {
        Some(choose|i: int| is_first_place(list, p, i))
    } else {
        None
    }
}

/// The first place of the list that waits for `p`: see `place_of`.
pub fn position_of(list: &Vec<PhaseEntry>, p: StepPhase) -> (r: Option<usize>)
    ensures
        match r {
            Some(k) => place_of(entries_view(list@), p) == Some(k as int),
            None => place_of(entries_view(list@), p) is None,
        },
{
    let ghost l = entries_view(list@);
    let mut i: usize = 0;
    while i < list.len()
        invariant
            l == entries_view(list@),
            i <= list@.len(),
            forall|k: int| 0 <= k < i ==> l[k].0 != Some(p),
        decreases list@.len() - i,
    {
        let found = match list[i].0 {
            Some(q) => q == p,
            None => false,
        };
        if found {
            proof {
                assert(is_first_place(l, p, i as int));
                let c = choose|c: int| is_first_place(l, p, c);
                assert(is_first_place(l, p, c));
                if c < i {
                    assert(l[c].0 != Some(p));
                } else if c > i {
                    assert(l[i as int].0 != Some(p));
                }
                reveal(place_of);
            }
            return Some(i);
        }
        assert(l[i as int].0 != Some(p));
        i = i + 1;
    }
    proof {
        reveal(place_of);
        assert forall|k: int| !is_first_place(l, p, k) by {
            if 0 <= k < l.len() {
                assert(l[k].0 != Some(p));
            }
        }
    }
    None
}

/// How far a listed phase has got.
#[derive(Debug, Clone, Copy, PartialEq, Eq, Structural)]
pub enum ItemState {
    Complete,
    Active,
    Pending,
}

/// A line of the progress list: a phase with its label and state, or the
/// separator between the build phases and the step phases.
#[derive(Debug, Clone, Copy, PartialEq, Eq)]
pub enum ProgressItem {
    Phase(&'static str, ItemState),
    Separator,
}

/// A progress line with its label as a text.
pub enum ProgressItemView {
    Phase(Seq<char>, ItemState),
    Separator,
}

impl View for ProgressItem {
    type V = ProgressItemView;

    open spec fn view(&self) -> ProgressItemView {
        match self {
            ProgressItem::Phase(l, s) => ProgressItemView::Phase(l@, *s),
            ProgressItem::Separator => ProgressItemView::Separator,
        }
    }
}

/// The views of progress lines.
pub open spec fn items_view(v: Seq<ProgressItem>) -> Seq<ProgressItemView> {
    v.map_values(|it: ProgressItem| it@)
}

/// The state of the place `i` when the place `active` is under way: the
/// places before it are complete, those after it pending; with none under
/// way, all are pending.
pub open spec fn state_at(active: Option<int>, i: int) -> ItemState {
    match active {
        Some(a) => if i < a {
            ItemState::Complete
        } else if i == a {
            ItemState::Active
        } else {
            ItemState::Pending
        },
        None => ItemState::Pending,
    }
}

/// The place under way among the build phases: past all of them once
/// building is over, else the build phase being run, if one is.
pub open spec fn build_active(done: bool, p: StepPhase) -> Option<int> {
    if done {
        Some(build_list().len() as int)
    } else if is_build(p) {
        place_of(build_list(), p)
    } else {
        None
    }
}

/// The place under way among a step's phases: none while building; past all
/// of them when the step is complete; else the phase being run, if listed.
pub open spec fn step_active(done: bool, p: StepPhase, steps: Seq<(Option<StepPhase>, Seq<char>)>) -> Option<int> {
    if !done {
        None
    } else if p == StepPhase::StepComplete {
        Some(steps.len() as int)
    } else {
        place_of(steps, p)
    }
}

/// The lines for a list of phases with the place `active` under way.
pub open spec fn items_of(list: Seq<(Option<StepPhase>, Seq<char>)>, active: Option<int>) -> Seq<ProgressItemView> {
    Seq::new(list.len(), |i: int| ProgressItemView::Phase(list[i].1, state_at(active, i)))
}

/// The progress list: the build phases, a separator, then the step's phases,
/// each marked complete, under way or pending.
pub open spec fn progress_list(done: bool, integ: Integrator, p: StepPhase, has_lomac: bool) -> Seq<ProgressItemView> {
    let steps = step_list(integ, has_lomac);
    items_of(build_list(), build_active(done, p)).push(ProgressItemView::Separator) + items_of(
        steps,
        step_active(done, p, steps),
    )
}

/// A place as an integer.
pub open spec fn as_place(a: Option<usize>) -> Option<int> {
    match a {
        Some(k) => Some(k as int),
        None => None,
    }
}

fn state_of(active: Option<usize>, i: usize) -> (s: ItemState)
    ensures
        s == state_at(as_place(active), i as int),
{
    match active {
        Some(a) => if i < a {
            ItemState::Complete
        } else if i == a {
            ItemState::Active
        } else {
            ItemState::Pending
        },
        None => ItemState::Pending,
    }
}

/// Appends the lines for a list of phases with the place `active` under way.
fn push_items(out: &mut Vec<ProgressItem>, list: &Vec<PhaseEntry>, active: Option<usize>)
    ensures
        items_view(final(out)@) == items_view(old(out)@) + items_of(
            entries_view(list@),
            as_place(active),
        ),
{
    let ghost start = items_view(out@);
    let ghost act = as_place(active);
    let ghost l = entries_view(list@);
    let mut i: usize = 0;
    while i < list.len()
        invariant
            i <= list@.len(),
            l == entries_view(list@),
            act == as_place(active),
            items_view(out@) == start + items_of(l, act).take(i as int),
        decreases list@.len() - i,
    {
        let st = state_of(active, i);
        let label = list[i].1;
        assert(st == state_at(act, i as int));
        assert(label@ == l[i as int].1);
        let item = ProgressItem::Phase(label, st);
        let ghost before = items_view(out@);
        out.push(item);
        proof {
            assert(items_view(out@) =~= before.push(item@));
            assert(l[i as int] == (list@[i as int].0, list@[i as int].1@));
            assert(items_of(l, act)[i as int] == item@);
            assert(items_of(l, act).take(i as int + 1) =~= items_of(l, act).take(i as int).push(item@));
        }
        i = i + 1;
    }
    assert(items_of(l, act).take(list@.len() as int) =~= items_of(l, act));
}

/// The progress list: see `progress_list`.
pub fn progress_items(done: bool, integ: Integrator, p: StepPhase, has_lomac: bool) -> (v: Vec<ProgressItem>)
    ensures
        items_view(v@) == progress_list(done, integ, p, has_lomac),
{
    let build = build_phases();
    let steps = step_phases(integ, has_lomac);
    let b_active: Option<usize> = if done {
        Some(build.len())
    } else if p.is_build() {
        position_of(&build, p)
    } else {
        None
    };
    let s_active: Option<usize> = if !done {
        None
    } else if p == StepPhase::StepComplete {
        Some(steps.len())
    } else {
        position_of(&steps, p)
    };
    let mut out: Vec<ProgressItem> = Vec::new();
    push_items(&mut out, &build, b_active);
    let ghost mid = items_view(out@);
    out.push(ProgressItem::Separator);
    assert(items_view(out@) =~= mid.push(ProgressItemView::Separator));
    push_items(&mut out, &steps, s_active);
    proof {
        assert(items_view(Seq::<ProgressItem>::empty()) =~= Seq::<ProgressItemView>::empty());
        let left = items_of(build_list(), build_active(done, p));
        assert(mid =~= left);
    }
    out
}

/// The line of the progress list marked as under way, if any: the build
/// phase being run while building, else the step phase being run, counted
/// past the six build lines and the separator.
pub open spec fn active_line(done: bool, integ: Integrator, p: StepPhase, has_lomac: bool) -> Option<int> {
    let steps = step_list(integ, has_lomac);
    if !done {
        build_active(false, p)
    } else {
        match step_active(true, p, steps) {
            Some(k) => if k < steps.len() {
                Some(build_list().len() + 1 + k)
            } else {
                None
            },
            None => None,
        }
    }
}

/// Whether a progress line is marked as under way.
pub open spec fn is_active(it: ProgressItemView) -> bool {
    it matches ProgressItemView::Phase(_, ItemState::Active)
}

proof fn lemma_place_in_list(list: Seq<(Option<StepPhase>, Seq<char>)>, p: StepPhase)
    ensures
        place_of(list, p) matches Some(k) ==> 0 <= k < list.len(),
{
    reveal(place_of);
    if exists|i: int| is_first_place(list, p, i) {
        let c = choose|i: int| is_first_place(list, p, i);
        assert(is_first_place(list, p, c));
    }
}

/// At most one line of the progress list is marked as under way: the line
/// of the reported phase, as `active_line` gives it.
pub proof fn lemma_one_active_line(done: bool, integ: Integrator, p: StepPhase, has_lomac: bool)
    ensures
        forall|i: int|
            0 <= i < progress_list(done, integ, p, has_lomac).len() ==> (is_active(
                #[trigger] progress_list(done, integ, p, has_lomac)[i],
            ) <==> active_line(done, integ, p, has_lomac) == Some(i)),
        active_line(done, integ, p, has_lomac) matches Some(k) ==> 0 <= k < progress_list(
            done,
            integ,
            p,
            has_lomac,
        ).len(),
{
    let steps = step_list(integ, has_lomac);
    let b = items_of(build_list(), build_active(done, p));
    let l = progress_list(done, integ, p, has_lomac);
    lemma_place_in_list(build_list(), p);
    lemma_place_in_list(steps, p);
    assert forall|i: int| 0 <= i < l.len() implies (is_active(#[trigger] l[i]) <==> active_line(done, integ, p, has_lomac) == Some(i)) by {
        if i < 6 {
            assert(l[i] == b[i]);
        } else if i == 6 {
            assert(l[i] == ProgressItemView::Separator);
        } else {
            assert(l[i] == items_of(steps, step_active(done, p, steps))[i - 7]);
        }
    }
}

/// The line of the progress list marked as under way: see `active_line`.
pub fn active_item(done: bool, integ: Integrator, p: StepPhase, has_lomac: bool) -> (r: Option<usize>)
    ensures
        as_place(r) == active_line(done, integ, p, has_lomac),
{
    if !done {
        if p.is_build() {
            let build = build_phases();
            position_of(&build, p)
        } else {
            None
        }
    } else if p == StepPhase::StepComplete {
        None
    } else {
        let steps = step_phases(integ, has_lomac);
        proof {
            lemma_place_in_list(entries_view(steps@), p);
        }
        match position_of(&steps, p) {
            Some(k) => Some(k + 7),
            None => None,
        }
    }
}

/// How many phases are done, out of how many: while building, the build
/// phases before the one being run; once building is over, the step's phases
/// before the one being run, all of them when the step is complete. A phase
/// that is not listed counts as none done.
pub open spec fn phases_done(done: bool, integ: Integrator, p: StepPhase, has_lomac: bool) -> (int, int) {
    if done {
        let steps = step_list(integ, has_lomac);
        (
            if p == StepPhase::StepComplete {
                steps.len() as int
            } else {
                match place_of(steps, p) {
                    Some(k) => k,
                    None => 0,
                }
            },
            steps.len() as int,
        )
    } else {
        (
            match place_of(build_list(), p) {
                Some(k) => k,
                None => 0,
            },
            build_list().len() as int,
        )
    }
}

proof fn lemma_list_lengths(integ: Integrator, has_lomac: bool)
    ensures
        build_list().len() == 6,
        2 <= step_list(integ, has_lomac).len() <= 258,
{
    assert(integrator_list(integ).len() <= 255) by {
        if let Integrator::Unsplit(n) = integ {
            assert(integrator_list(integ).len() == n);
        }
    }
}

/// The footer's count: the phases done, the phases in all, and the whole
/// percentage done (see `phases_done`).
pub fn phase_counts(done: bool, integ: Integrator, p: StepPhase, has_lomac: bool) -> (r: (usize, usize, usize))
    ensures
        r.0 == phases_done(done, integ, p, has_lomac).0,
        r.1 == phases_done(done, integ, p, has_lomac).1,
        r.1 > 0,
        r.2 == (r.0 * 100) as int / (r.1 as int),
{
    let list = if done {
        step_phases(integ, has_lomac)
    } else {
        build_phases()
    };
    proof {
        lemma_place_in_list(entries_view(list@), p);
        lemma_list_lengths(integ, has_lomac);
        assert(entries_view(list@).len() == list@.len());
    }
    let total = list.len();
    let completed = if done && p == StepPhase::StepComplete {
        total
    } else {
        match position_of(&list, p) {
            Some(k) => k,
            None => 0,
        }
    };
    (completed, total, completed * 100 / total)
}

/// `x`, or zero when it is negative.
pub open spec fn floor0(x: int) -> int {
    if x < 0 {
        0
    } else {
        x
    }
}

/// The smaller of two integers.
pub open spec fn least(a: int, b: int) -> int {
    if a <= b {
        a
    } else {
        b
    }
}

/// The lines of a list that a panel `lines` tall shows, from `.0` up to but
/// not including `.1`, kept around the line `focus`. One line is kept for the
/// footer. When the list fits, all of it; else a window centred on the focus
/// as far as the ends allow, and, when that window needs a "… above" or
/// "… below" marker, a window shorter by one line per marker, placed the
/// same way.
pub open spec fn view_window(total: int, lines: int, focus: int) -> (int, int) {
    let avail = floor0(lines - 1);
    if total <= avail {
        (0, total)
    } else {
        let start = least(floor0(focus - avail / 2), total - avail);
        let end = least(start + avail, total);
        let markers = (if start > 0 { 1int } else { 0int }) + (if end < total { 1int } else { 0int });
        if markers > 0 {
            let slots = floor0(avail - markers);
            let s = least(floor0(focus - slots / 2), floor0(total - slots));
            (s, least(s + slots, total))
        } else {
            (start, end)
        }
    }
}

/// The lines of the progress list that a panel `lines` tall shows: see
/// `view_window`. The window lies within the list, and it holds the focus
/// whenever the list fits or the panel has room for the footer, both markers
/// and one more line.
pub fn scroll_window(total: usize, lines: usize, focus: usize) -> (r: (usize, usize))
    ensures
        (r.0 as int, r.1 as int) == view_window(total as int, lines as int, focus as int),
        r.0 <= r.1 <= total,
        focus < total && (total + 1 <= lines || lines >= 4) ==> r.0 <= focus < r.1,
{
    let avail = if lines > 0 { lines - 1 } else { 0 };
    if total <= avail {
        return (0, total);
    }
    let half = avail / 2;
    let from_focus = if focus > half { focus - half } else { 0 };
    let start = if from_focus <= total - avail { from_focus } else { total - avail };
    let end = if start + avail <= total { start + avail } else { total };
    let markers: usize = (if start > 0 { 1 } else { 0 }) + (if end < total { 1 } else { 0 });
    if markers > 0 {
        let slots = if avail > markers { avail - markers } else { 0 };
        let from_focus = if focus > slots / 2 { focus - slots / 2 } else { 0 };
        let s = if from_focus <= total - slots { from_focus } else { total - slots };
        let e = if s + slots <= total { s + slots } else { total };
        (s, e)
    } else {
        (start, end)
    }
}

/// A phase that the step list of a scheme names reveals that scheme, given
/// the number of sub-steps such a run reports: the two-sub-step Lie
/// splitting and Strang splitting (any other count) share their drift and
/// kick, and an unsplit scheme reports as many sub-steps as it has stages.
/// Whatever was guessed before, every listed phase of a scheme leads to
/// that scheme.
pub proof fn lemma_listed_phase_reveals_scheme(prev: Integrator, i: Integrator, k: int, n: u8)
    requires
        0 <= k < integrator_list(i).len(),
        integrator_list(i)[k].0 is Some,
        i == Integrator::Lie ==> n == 2,
        i == Integrator::Strang ==> n != 2,
        i matches Integrator::Unsplit(m) ==> m == n,
    ensures
        detected(prev, integrator_list(i)[k].0.unwrap(), n) == i,
{
    match i {
        Integrator::Unsplit(m) => {
            assert(integrator_list(i)[k] == (unsplit_phase(k), unsplit_label(k)));
        },
        _ => {},
    }
}

} // verus!
