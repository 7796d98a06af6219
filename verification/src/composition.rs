//! Composition validity: the rules a skill must satisfy before retargeting,
//! decidable from the grasp stability table alone.
//!
//! Walking the sequence, the check tracks the let-names bound so far, the
//! active grasp's mode and the let-name it is bound to, and the let-bound grasp
//! handles that a regrasp or handoff has superseded. A statement is rejected when
//! 1. it rebinds a let-name;
//! 2. it is an in-hand DOF move on a grasp with a form-held DOF, or a rotational
//!    one on a rotation-constrained grasp;
//! 3. it requires a held object and no grasp is active;
//! 4. it freely transports a surface-bound or support-closure grasp;
//! 5. it names a superseded grasp handle.

use vstd::prelude::*;
use crate::error::Error;
use crate::grasp_force::{spec_mode_name, GraspMode};
use crate::skill_isa::{
    spec_establishes_grasp, spec_grasp_handle_ref, spec_in_hand_move_kind, spec_is_free_transport,
    spec_releases_grasp, spec_requires_held_grasp, spec_supersedes_grasp, Primitive, Skill,
    Statement,
};
use crate::stability::{lemma_only_hook_is_form_held, spec_closure, spec_flags, spec_secured_dof, Closure, DofSecuring, StabilityMetadata};
use crate::text::{join, str_eq};

verus! {

/// The state of the validity walk.
pub struct ValidationState {
    /// The let-names bound so far.
    pub seen: Seq<Seq<char>>,
    /// The active grasp's mode, when a grasp is held.
    pub active: Option<GraspMode>,
    /// The let-name the active grasp is bound to.
    pub active_handle: Option<Seq<char>>,
    /// Let-bound grasp handles superseded by a regrasp or handoff.
    pub stale: Seq<Seq<char>>,
}

/// The state before the first statement.
pub open spec fn initial_state() -> ValidationState {
    ValidationState { seen: Seq::empty(), active: None, active_handle: None, stale: Seq::empty() }
}

/// The primitive a statement calls.
pub open spec fn stmt_prim(s: Statement) -> Primitive {
    match s {
        Statement::LetBind(b) => *b.from,
        Statement::Primitive(p) => p,
    }
}

/// The let-name a statement binds.
pub open spec fn stmt_bind(s: Statement) -> Option<Seq<char>> {
    match s {
        Statement::LetBind(b) => Some(b.name@),
        Statement::Primitive(_) => None,
    }
}

/// Whether a mode's grasp holds some DOF by form (not movable in-hand).
pub open spec fn form_held_mode(m: GraspMode) -> bool {
    exists|i: int|
        0 <= i < spec_secured_dof(m).len() && #[trigger] spec_secured_dof(m)[i].1
            == DofSecuring::FormHeld
}

/// `duplicate let-binding '<n>'`.
pub open spec fn dup_msg(n: Seq<char>) -> Seq<char> {
    "duplicate let-binding '"@ + n + "'"@
}

/// `<f>: a form_held grasp (<Mode>) is not movable in-hand (spec/01 § DOF-admissibility)`.
pub open spec fn form_held_msg(f: Seq<char>, m: GraspMode) -> Seq<char> {
    f + ": a form_held grasp ("@ + spec_mode_name(m) + ") is not movable in-hand (spec/01 § DOF-admissibility)"@
}

/// `<f>: a rotation_constrained grasp (<Mode>) resists in-hand rotation (spec/01 § DOF-admissibility)`.
pub open spec fn rotation_msg(f: Seq<char>, m: GraspMode) -> Seq<char> {
    f + ": a rotation_constrained grasp ("@ + spec_mode_name(m) + ") resists in-hand rotation (spec/01 § DOF-admissibility)"@
}

/// The lifecycle failure.
pub open spec fn no_active_msg() -> Seq<char> {
    "no_active_grasp: a held-requiring primitive has no active grasp (spec/01 § Lifecycle transitions)"@
}

/// `transport_inadmissible: a non-transportable grasp (<Mode>) cannot be freely transported (spec/05 STB3)`.
pub open spec fn transport_msg(m: GraspMode) -> Seq<char> {
    "transport_inadmissible: a non-transportable grasp ("@ + spec_mode_name(m)
        + ") cannot be freely transported (spec/05 STB3)"@
}

/// `grasp_ref_superseded: grasp handle '<h>' was invalidated by a prior regrasp / handoff (spec/01 § GraspRef supersession)`.
pub open spec fn stale_msg(h: Seq<char>) -> Seq<char> {
    "grasp_ref_superseded: grasp handle '"@ + h
        + "' was invalidated by a prior regrasp / handoff (spec/01 § GraspRef supersession)"@
}

/// Rule 2: an in-hand DOF move on a form-held or (rotational move) a
/// rotation-constrained active grasp.
pub open spec fn dof_violation(st: ValidationState, p: Primitive) -> Option<Seq<char>> {
    match (spec_in_hand_move_kind(p), st.active) {
        (Some((f, rot)), Some(m)) => if form_held_mode(m) {
            Some(form_held_msg(f, m))
        } else if rot && spec_flags(m).rotation_constrained {
            Some(rotation_msg(f, m))
        } else {
            None
        },
        _ => None,
    }
}

/// Rule 4: free transport of a surface-bound or support-closure grasp.
pub open spec fn transport_violation(st: ValidationState, p: Primitive) -> Option<Seq<char>> {
    match st.active {
        Some(m) => if spec_is_free_transport(p) && (spec_flags(m).surface_bound || spec_closure(m)
            == Closure::Support) {
            Some(transport_msg(m))
        } else {
            None
        },
        None => None,
    }
}

/// Rule 5: a grasp handle naming a superseded let-binding.
pub open spec fn stale_violation(st: ValidationState, p: Primitive) -> Option<Seq<char>> {
    match spec_grasp_handle_ref(p) {
        Some(h) => if st.stale.contains(h) {
            Some(stale_msg(h))
        } else {
            None
        },
        None => None,
    }
}

/// The first rule a statement breaks in state `st`, as its failure text.
pub open spec fn stmt_violation(st: ValidationState, s: Statement) -> Option<Seq<char>> {
    let p = stmt_prim(s);
    if stmt_bind(s) is Some && st.seen.contains(stmt_bind(s)->0) {
        Some(dup_msg(stmt_bind(s)->0))
    } else if dof_violation(st, p) is Some {
        dof_violation(st, p)
    } else if spec_requires_held_grasp(p) && st.active is None {
        Some(no_active_msg())
    } else if transport_violation(st, p) is Some {
        transport_violation(st, p)
    } else {
        stale_violation(st, p)
    }
}

/// The state after a statement: a grasp-establishing primitive makes its mode
/// active (bound to the statement's let-name), a releasing one clears it, and a
/// superseding one marks the previous active handle stale.
pub open spec fn next_state(st: ValidationState, s: Statement) -> ValidationState {
    let p = stmt_prim(s);
    let b = stmt_bind(s);
    let seen = match b {
        Some(n) => st.seen.push(n),
        None => st.seen,
    };
    let stale = if spec_supersedes_grasp(p) && st.active_handle is Some {
        st.stale.push(st.active_handle->0)
    } else {
        st.stale
    };
    let handle = if spec_supersedes_grasp(p) {
        None
    } else {
        st.active_handle
    };
    match spec_establishes_grasp(p) {
        Some(m) => ValidationState { seen, active: Some(m), active_handle: b, stale },
        None => if spec_releases_grasp(p) {
            ValidationState { seen, active: None, active_handle: None, stale }
        } else {
            ValidationState { seen, active: st.active, active_handle: handle, stale }
        },
    }
}

/// The outcome of walking `stmts` from state `st`: the first failure, if any.
pub open spec fn run(st: ValidationState, stmts: Seq<Statement>) -> Option<Seq<char>>
    decreases stmts.len(),
{
    if stmts.len() == 0 {
        None
    } else {
        match stmt_violation(st, stmts[0]) {
            Some(e) => Some(e),
            None => run(next_state(st, stmts[0]), stmts.drop_first()),
        }
    }
}

/// The outcome of validating a skill: its first failure, if any.
pub open spec fn spec_validate(s: Skill) -> Option<Seq<char>> {
    run(initial_state(), s.body.sequence@)
}

/// The view of an optional name.
pub open spec fn opt_str(o: Option<String>) -> Option<Seq<char>> {
    match o {
        Some(s) => Some(s@),
        None => None,
    }
}

/// The views of a list of names.
pub open spec fn names_view(v: Seq<String>) -> Seq<Seq<char>> {
    v.map_values(|s: String| s@)
}

/// Whether `name` is in `v`.
fn contains_name(v: &Vec<String>, name: &str) -> (r: bool)
    ensures
        r == names_view(v@).contains(name@),
{
    let mut i: usize = 0;
    while i < v.len()
        invariant
            0 <= i <= v@.len(),
            forall|j: int| 0 <= j < i ==> names_view(v@)[j] != name@,
        decreases v@.len() - i,
    {
        if str_eq(v[i].as_str(), name) {
            assert(names_view(v@)[i as int] == name@);
            return true;
        }
        i = i + 1;
    }
    false
}

/// Whether a mode's grasp holds some DOF by form.
fn mode_form_held(m: GraspMode) -> (r: bool)
    ensures
        r == form_held_mode(m),
{
    let meta = StabilityMetadata::for_mode(m);
    let r = meta.secured_dof.has_form_held();
    proof {
        let ve = meta.secured_dof.view_entries();
        assert(ve == spec_secured_dof(m));
        if r {
            let i = choose|i: int|
                0 <= i < meta.secured_dof.entries@.len()
                    && #[trigger] meta.secured_dof.entries@[i].1 == DofSecuring::FormHeld;
            assert(ve[i].1 == DofSecuring::FormHeld);
        } else {
            assert forall|i: int|
                0 <= i < spec_secured_dof(m).len() implies #[trigger] spec_secured_dof(m)[i].1
                != DofSecuring::FormHeld by {
                assert(ve[i].1 == meta.secured_dof.entries@[i].1);
            }
        }
    }
    r
}

fn quoted(prefix: &str, mid: &str, suffix: &str) -> (r: String)
    ensures
        r@ == prefix@ + mid@ + suffix@,
{
    let a = join(prefix, mid);
    let r = join(a.as_str(), suffix);
    r
}

impl Skill {
    /// Validate the composition before retargeting: unique let-names,
    /// DOF-admissibility of in-hand moves, the `no_active_grasp` lifecycle rule,
    /// no free transport of a surface-bound or support grasp, and no use of a
    /// superseded grasp handle. The first violation is returned as
    /// `Error::SkillIsa` with its failure text.
    pub fn validate(&self) -> (r: Result<(), Error>)
        ensures
            match spec_validate(*self) {
                None => r is Ok,
                Some(m) => r matches Err(Error::SkillIsa(s)) && s@ == m,
            },
    {
        let stmts = &self.body.sequence;
        let mut seen: Vec<String> = Vec::new();
        let mut active: Option<GraspMode> = None;
        let mut active_handle: Option<String> = None;
        let mut stale: Vec<String> = Vec::new();
        let mut i: usize = 0;
        assert(stmts@.skip(0) =~= stmts@);
        assert(names_view(seen@) =~= Seq::<Seq<char>>::empty());
        assert(names_view(stale@) =~= Seq::<Seq<char>>::empty());
        while i < stmts.len()
            invariant
                0 <= i <= stmts@.len(),
                stmts == &self.body.sequence,
                spec_validate(*self) == run(
                    ValidationState {
                        seen: names_view(seen@),
                        active,
                        active_handle: opt_str(active_handle),
                        stale: names_view(stale@),
                    },
                    stmts@.skip(i as int),
                ),
            decreases stmts@.len() - i,
        {
            let ghost st = ValidationState {
                seen: names_view(seen@),
                active,
                active_handle: opt_str(active_handle),
                stale: names_view(stale@),
            };
            let stmt = &stmts[i];
            assert(stmts@.skip(i as int)[0] == *stmt);
            assert(stmts@.skip(i as int).drop_first() =~= stmts@.skip(i + 1));
            let (prim, bind_name): (&Primitive, Option<&str>) = match stmt {
                Statement::LetBind(lb) => (&*lb.from, Some(lb.name.as_str())),
                Statement::Primitive(p) => (p, None),
            };
            assert(*prim == stmt_prim(*stmt));
            // 1. unique let-names.
            if let Some(n) = bind_name {
                if contains_name(&seen, n) {
                    return Err(Error::SkillIsa(quoted("duplicate let-binding '", n, "'")));
                }
                seen.push(n.to_owned());
                proof {
                    assert(names_view(seen@) =~= st.seen.push(n@));
                }
            }
            // 2. DOF-admissibility.
            if let Some((failure, rotational)) = prim.in_hand_move_kind() {
                if let Some(mode) = active {
                    if mode_form_held(mode) {
                        let a = join(failure, ": a form_held grasp (");
                        return Err(
                            Error::SkillIsa(quoted(a.as_str(), mode.name(), ") is not movable in-hand (spec/01 § DOF-admissibility)")),
                        );
                    }
                    let meta = StabilityMetadata::for_mode(mode);
                    if rotational && meta.flags.rotation_constrained {
                        let a = join(failure, ": a rotation_constrained grasp (");
                        return Err(
                            Error::SkillIsa(quoted(a.as_str(), mode.name(), ") resists in-hand rotation (spec/01 § DOF-admissibility)")),
                        );
                    }
                }
            }
            // 3. lifecycle.
            if prim.requires_held_grasp() && active.is_none() {
                return Err(
                    Error::SkillIsa(
                        "no_active_grasp: a held-requiring primitive has no active grasp (spec/01 § Lifecycle transitions)".to_owned(),
                    ),
                );
            }
            // 4. free transport of a non-transportable grasp.
            if prim.is_free_transport() {
                if let Some(mode) = active {
                    let meta = StabilityMetadata::for_mode(mode);
                    if meta.flags.surface_bound || matches!(meta.closure, Closure::Support) {
                        return Err(
                            Error::SkillIsa(
                                quoted(
                                    "transport_inadmissible: a non-transportable grasp (",
                                    mode.name(),
                                    ") cannot be freely transported (spec/05 STB3)",
                                ),
                            ),
                        );
                    }
                }
            }
            // 5. superseded grasp handles.
            if let Some(handle) = prim.grasp_handle_ref() {
                if contains_name(&stale, handle) {
                    return Err(
                        Error::SkillIsa(
                            quoted(
                                "grasp_ref_superseded: grasp handle '",
                                handle,
                                "' was invalidated by a prior regrasp / handoff (spec/01 § GraspRef supersession)",
                            ),
                        ),
                    );
                }
            }
            assert(stmt_violation(st, *stmt) is None);
            // state update.
            if prim.supersedes_grasp() {
                if let Some(old) = active_handle.take() {
                    stale.push(old);
                    proof {
                        assert(names_view(stale@) =~= st.stale.push(st.active_handle->0));
                    }
                }
            }
            if let Some(mode) = prim.establishes_grasp() {
                active = Some(mode);
                active_handle = match bind_name {
                    Some(n) => Some(n.to_owned()),
                    None => None,
                };
            } else if prim.releases_grasp() {
                active = None;
                active_handle = None;
            }
            i = i + 1;
        }
        Ok(())
    }
}

/// The state after walking `stmts` from `st` (ignoring failures).
pub open spec fn state_after(st: ValidationState, stmts: Seq<Statement>) -> ValidationState
    decreases stmts.len(),
{
    if stmts.len() == 0 {
        st
    } else {
        state_after(next_state(st, stmts[0]), stmts.drop_first())
    }
}

/// A sequence passes exactly when each statement passes in the state its
/// predecessors leave.
pub proof fn lemma_run_passes_iff_each_statement_passes(st: ValidationState, stmts: Seq<Statement>)
    ensures
        run(st, stmts) is None <==> forall|i: int|
            0 <= i < stmts.len() ==> #[trigger] stmt_violation(
                state_after(st, stmts.take(i)),
                stmts[i],
            ) is None,
    decreases stmts.len(),
{
    if stmts.len() > 0 {
        let st1 = next_state(st, stmts[0]);
        let rest = stmts.drop_first();
        lemma_run_passes_iff_each_statement_passes(st1, rest);
        assert(stmts.take(0) =~= Seq::<Statement>::empty());
        assert forall|i: int| 1 <= i < stmts.len() implies state_after(st, stmts.take(i))
            == state_after(st1, rest.take(i - 1)) && stmts[i] == rest[i - 1] by {
            assert(stmts.take(i).drop_first() =~= rest.take(i - 1));
        }
        if run(st, stmts) is None {
            assert forall|i: int| 0 <= i < stmts.len() implies #[trigger] stmt_violation(
                state_after(st, stmts.take(i)),
                stmts[i],
            ) is None by {
                if i > 0 {
                    assert(stmt_violation(state_after(st1, rest.take(i - 1)), rest[i - 1]) is None);
                }
            }
        }
        if forall|i: int|
            0 <= i < stmts.len() ==> #[trigger] stmt_violation(
                state_after(st, stmts.take(i)),
                stmts[i],
            ) is None {
            assert(stmt_violation(state_after(st, stmts.take(0)), stmts[0]) is None);
            assert forall|j: int| 0 <= j < rest.len() implies #[trigger] stmt_violation(
                state_after(st1, rest.take(j)),
                rest[j],
            ) is None by {
                assert(stmt_violation(state_after(st, stmts.take(j + 1)), stmts[j + 1]) is None);
            }
        }
    }
}

/// Validity is prefix-closed: every prefix of a valid composition is valid.
pub proof fn lemma_valid_prefix(stmts: Seq<Statement>, k: int)
    requires
        run(initial_state(), stmts) is None,
        0 <= k <= stmts.len(),
    ensures
        run(initial_state(), stmts.take(k)) is None,
{
    lemma_run_passes_iff_each_statement_passes(initial_state(), stmts);
    lemma_run_passes_iff_each_statement_passes(initial_state(), stmts.take(k));
    assert forall|i: int| 0 <= i < stmts.take(k).len() implies #[trigger] stmt_violation(
        state_after(initial_state(), stmts.take(k).take(i)),
        stmts.take(k)[i],
    ) is None by {
        assert(stmts.take(k).take(i) =~= stmts.take(i));
        assert(stmt_violation(state_after(initial_state(), stmts.take(i)), stmts[i]) is None);
    }
}

/// In a valid composition every held-requiring primitive runs with an active
/// grasp, and no free transport moves a surface-bound or support-closure grasp.
pub proof fn lemma_valid_lifecycle(stmts: Seq<Statement>, i: int)
    requires
        run(initial_state(), stmts) is None,
        0 <= i < stmts.len(),
    ensures
        spec_requires_held_grasp(stmt_prim(stmts[i])) ==> state_after(
            initial_state(),
            stmts.take(i),
        ).active is Some,
        spec_is_free_transport(stmt_prim(stmts[i])) ==> match state_after(
            initial_state(),
            stmts.take(i),
        ).active {
            Some(m) => !spec_flags(m).surface_bound && spec_closure(m) != Closure::Support,
            None => true,
        },
{
    lemma_run_passes_iff_each_statement_passes(initial_state(), stmts);
    assert(stmt_violation(state_after(initial_state(), stmts.take(i)), stmts[i]) is None);
}

/// A grasp-establishing statement makes its mode the active grasp; a releasing
/// one leaves no grasp active; any other statement keeps the active mode.
pub proof fn lemma_active_grasp_tracking(st: ValidationState, s: Statement)
    ensures
        spec_establishes_grasp(stmt_prim(s)) is Some ==> next_state(st, s).active
            == spec_establishes_grasp(stmt_prim(s)),
        spec_releases_grasp(stmt_prim(s)) ==> next_state(st, s).active is None,
        spec_establishes_grasp(stmt_prim(s)) is None && !spec_releases_grasp(stmt_prim(s))
            ==> next_state(st, s).active == st.active,
{
    lemma_primitive_classes(stmt_prim(s));
}

/// How the primitive classes relate: a superseding primitive establishes a new
/// grasp on a held object; a releasing one establishes none and needs a held
/// object; every in-hand DOF move needs a held object; a free transport needs
/// none and establishes none.
pub proof fn lemma_primitive_classes(p: Primitive)
    ensures
        spec_supersedes_grasp(p) ==> spec_establishes_grasp(p) is Some
            && spec_requires_held_grasp(p),
        spec_releases_grasp(p) ==> spec_establishes_grasp(p) is None && spec_requires_held_grasp(p),
        spec_in_hand_move_kind(p) is Some ==> spec_requires_held_grasp(p),
        spec_is_free_transport(p) ==> !spec_requires_held_grasp(p) && spec_establishes_grasp(
            p,
        ) is None && !spec_releases_grasp(p),
{
}

/// On a rotation-constrained grasp (the precision tripod) an in-hand move is
/// rejected exactly when it moves a rotational DOF: a rotate, a roll or a pivot
/// fails with the rotation-constrained error named after the move, while a
/// translation or a slide is admissible.
pub proof fn lemma_rotational_moves_on_tripod(st: ValidationState, s: Statement)
    requires
        st.active == Some(GraspMode::PrecisionTripod),
        !(stmt_bind(s) is Some && st.seen.contains(stmt_bind(s)->0)),
    ensures
        stmt_prim(s) is InHandRotate ==> stmt_violation(st, s) == Some(
            rotation_msg("rotation_inadmissible"@, GraspMode::PrecisionTripod),
        ),
        stmt_prim(s) is InHandRoll ==> stmt_violation(st, s) == Some(
            rotation_msg("roll_inadmissible"@, GraspMode::PrecisionTripod),
        ),
        stmt_prim(s) is InHandPivot ==> stmt_violation(st, s) == Some(
            rotation_msg("pivot_inadmissible"@, GraspMode::PrecisionTripod),
        ),
        stmt_prim(s) is InHandTranslate || stmt_prim(s) is InHandSlide ==> dof_violation(
            st,
            stmt_prim(s),
        ) is None,
{
    lemma_only_hook_is_form_held(GraspMode::PrecisionTripod);
}

/// Envelope grasps, caged or conforming, hold no DOF by form and are not
/// rotation-constrained, so no in-hand move on them breaks DOF admissibility.
pub proof fn lemma_envelope_grasps_admit_in_hand_moves(st: ValidationState, p: Primitive)
    requires
        st.active == Some(GraspMode::EnvelopeCage) || st.active == Some(GraspMode::EnvelopeConform),
    ensures
        dof_violation(st, p) is None,
{
    lemma_only_hook_is_form_held(GraspMode::EnvelopeCage);
    lemma_only_hook_is_form_held(GraspMode::EnvelopeConform);
}

} // verus!
