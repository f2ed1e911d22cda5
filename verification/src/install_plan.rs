use vstd::prelude::*;
use crate::recipe::{InstallRecipe, InstallStep, StepModel};

verus! {

/// The picked recipes, carried out step by step in order. When a step fails,
/// the rest of its recipe is skipped and the plan goes on with the next
/// recipe if the user asked to continue after failures; otherwise the plan
/// stops.
pub struct InstallPlan {
    recipes: Vec<InstallRecipe>,
    /// The recipe and the step within it that come next.
    position: (usize, usize),
    continue_after_failure: bool,
    aborted: bool,
}

/// An install plan as plain values.
pub struct PlanModel {
    pub recipes: Seq<Seq<StepModel>>,
    pub recipe: int,
    pub step: int,
    pub continue_after_failure: bool,
    pub aborted: bool,
}

/// The steps of each recipe.
pub open spec fn recipes_model(recipes: Seq<InstallRecipe>) -> Seq<Seq<StepModel>> {
    recipes.map_values(|r: InstallRecipe| r@)
}

/// The first step at or after step `s` of recipe `r`, passing over recipes
/// that have no steps left; `(recipes.len(), 0)` when there is none.
pub open spec fn settle(recipes: Seq<Seq<StepModel>>, r: int, s: int) -> (int, int)
    decreases recipes.len() - r,
{
    if r < 0 || r >= recipes.len() {
        (recipes.len() as int, 0)
    } else if 0 <= s < recipes[r].len() {
        (r, s)
    } else {
        settle(recipes, r + 1, 0)
    }
}

/// The plan with its next step at `at`.
pub open spec fn at_position(p: PlanModel, at: (int, int)) -> PlanModel {
    PlanModel { recipe: at.0, step: at.1, ..p }
}

/// A fresh plan over the given recipes.
pub open spec fn plan_spec(recipes: Seq<Seq<StepModel>>, continue_after_failure: bool) -> PlanModel {
    at_position(
        PlanModel { recipes, recipe: 0, step: 0, continue_after_failure, aborted: false },
        settle(recipes, 0, 0),
    )
}

/// Whether the plan has nothing more to do.
pub open spec fn is_over(p: PlanModel) -> bool {
    p.aborted || p.recipe >= p.recipes.len()
}

/// The step to carry out next, if any.
pub open spec fn current_spec(p: PlanModel) -> Option<StepModel> {
    if is_over(p) {
        None
    } else {
        Some(p.recipes[p.recipe][p.step])
    }
}

/// The plan after the current step succeeded or failed.
pub open spec fn record_spec(p: PlanModel, succeeded: bool) -> PlanModel {
    if is_over(p) {
        p
    } else if succeeded {
        at_position(p, settle(p.recipes, p.recipe, p.step + 1))
    } else if p.continue_after_failure {
        // the further steps of this recipe don't make sense,
        // but nevertheless go on with the user's other demands
        at_position(p, settle(p.recipes, p.recipe + 1, 0))
    } else {
        PlanModel { aborted: true, ..p }
    }
}

/// A settled position is a step of some recipe, or the end.
proof fn lemma_settle_lands(recipes: Seq<Seq<StepModel>>, r: int, s: int)
    requires
        0 <= r <= recipes.len(),
    ensures
        ({
            let at = settle(recipes, r, s);
            &&& r <= at.0 <= recipes.len()
            &&& at.0 < recipes.len() ==> 0 <= at.1 < recipes[at.0].len()
            &&& at.0 == r && r < recipes.len() ==> at.1 == s
            &&& at.0 == recipes.len() ==> at.1 == 0
            &&& s == 0 ==> at.1 == 0
            &&& forall|k: int| r < k < at.0 ==> (#[trigger] recipes[k]).len() == 0
            &&& (r < at.0 && r < recipes.len()) ==> !(0 <= s < recipes[r].len())
        }),
    decreases recipes.len() - r,
{
    if r < recipes.len() && !(0 <= s < recipes[r].len()) {
        lemma_settle_lands(recipes, r + 1, 0);
        let at = settle(recipes, r + 1, 0);
        assert forall|k: int| r < k < at.0 implies (#[trigger] recipes[k]).len() == 0 by {
            if k == r + 1 {
                assert(!(0 <= 0 < recipes[r + 1].len()));
            }
        }
    }
}

impl View for InstallPlan {
    type V = PlanModel;

    closed spec fn view(&self) -> PlanModel {
        PlanModel {
            recipes: recipes_model(self.recipes@),
            recipe: self.position.0 as int,
            step: self.position.1 as int,
            continue_after_failure: self.continue_after_failure,
            aborted: self.aborted,
        }
    }
}

impl InstallPlan {
    /// The next step is a step of some recipe, or the plan is at its end.
    #[verifier::type_invariant]
    closed spec fn well_placed(self) -> bool {
        &&& self.position.0 <= self.recipes@.len()
        &&& self.position.0 < self.recipes@.len() ==> self.position.1
            < self.recipes@[self.position.0 as int].steps@.len()
        &&& self.position.0 == self.recipes@.len() ==> self.position.1 == 0
    }

    /// The first step at or after step `s` of recipe `r`.
    fn settle_from(recipes: &Vec<InstallRecipe>, r: usize, s: usize) -> (at: (usize, usize))
        requires
            r <= recipes@.len(),
        ensures
            (at.0 as int, at.1 as int) == settle(recipes_model(recipes@), r as int, s as int),
            at.0 <= recipes@.len(),
            at.0 < recipes@.len() ==> at.1 < recipes@[at.0 as int].steps@.len(),
            at.0 == recipes@.len() ==> at.1 == 0,
    {
        let ghost model = recipes_model(recipes@);
        let ghost target = settle(model, r as int, s as int);
        let mut r = r;
        let mut s = s;
        while r < recipes.len() && s >= recipes[r].steps.len()
            invariant
                r <= recipes@.len(),
                model == recipes_model(recipes@),
                settle(model, r as int, s as int) == target,
            decreases recipes@.len() - r,
        {
            assert(model[r as int].len() == recipes@[r as int].steps@.len());
            r = r + 1;
            s = 0;
        }
        if r < recipes.len() {
            assert(model[r as int].len() == recipes@[r as int].steps@.len());
            (r, s)
        } else {
            (r, 0)
        }
    }

    /// A plan over `recipes`, in order.
    pub fn new(recipes: Vec<InstallRecipe>, continue_after_failure: bool) -> (plan: InstallPlan)
        ensures
            plan@ == plan_spec(recipes_model(recipes@), continue_after_failure),
    {
        let position = InstallPlan::settle_from(&recipes, 0, 0);
        InstallPlan { recipes, position, continue_after_failure, aborted: false }
    }

    /// The step to carry out next, if the plan is not over.
    pub fn current(&self) -> (step: Option<&InstallStep>)
        ensures
            match step {
                Some(st) => current_spec(self@) == Some(st@),
                None => current_spec(self@) is None,
            },
    {
        proof {
            use_type_invariant(self);
        }
        if self.aborted || self.position.0 >= self.recipes.len() {
            None
        } else {
            let recipe = &self.recipes[self.position.0];
            let step = &recipe.steps[self.position.1];
            assert(self@.recipes[self.position.0 as int] == recipe@);
            Some(step)
        }
    }

    /// Record how the current step went.
    pub fn record(&mut self, succeeded: bool)
        ensures
            final(self)@ == record_spec(old(self)@, succeeded),
    {
        proof {
            use_type_invariant(&*self);
        }
        if self.aborted || self.position.0 >= self.recipes.len() {
            return;
        }
        let (r, s) = self.position;
        if succeeded {
            let count = self.recipes[r].steps.len();
            assert(s < count);
            self.position = InstallPlan::settle_from(&self.recipes, r, s + 1);
        } else if self.continue_after_failure {
            self.position = InstallPlan::settle_from(&self.recipes, r + 1, 0);
        } else {
            self.aborted = true;
        }
    }

    /// Whether a failed step stopped the plan.
    pub fn aborted(&self) -> (stopped: bool)
        ensures
            stopped == self@.aborted,
    {
        self.aborted
    }
}

// ---------------------------------------------------------------------------
// Laws

/// The next step of a plan is a step of one of its recipes, or the plan is
/// at its end.
pub open spec fn well_placed(p: PlanModel) -> bool {
    &&& 0 <= p.recipe <= p.recipes.len()
    &&& p.recipe < p.recipes.len() ==> 0 <= p.step < p.recipes[p.recipe].len()
}

/// Whether position `a` comes before position `b` in the order in which
/// steps are carried out.
pub open spec fn comes_before(a: (int, int), b: (int, int)) -> bool {
    a.0 < b.0 || (a.0 == b.0 && a.1 < b.1)
}

/// A fresh plan is well placed, and recording an outcome keeps it so.
pub proof fn lemma_plans_stay_well_placed(
    recipes: Seq<Seq<StepModel>>,
    continue_after_failure: bool,
    p: PlanModel,
    succeeded: bool,
)
    requires
        well_placed(p),
    ensures
        well_placed(plan_spec(recipes, continue_after_failure)),
        well_placed(record_spec(p, succeeded)),
{
    lemma_settle_lands(recipes, 0, 0);
    if !is_over(p) {
        lemma_settle_lands(p.recipes, p.recipe, p.step + 1);
        lemma_settle_lands(p.recipes, p.recipe + 1, 0);
    }
}

/// Steps are carried out in order, each at most once: recording an outcome
/// moves the plan strictly forward, or stops it.
pub proof fn lemma_plan_moves_forward(p: PlanModel, succeeded: bool)
    requires
        well_placed(p),
        !is_over(p),
    ensures
        ({
            let q = record_spec(p, succeeded);
            q.aborted || comes_before((p.recipe, p.step), (q.recipe, q.step))
        }),
{
    lemma_settle_lands(p.recipes, p.recipe, p.step + 1);
    lemma_settle_lands(p.recipes, p.recipe + 1, 0);
}

/// A fresh plan starts at the first step of the first recipe that has
/// steps: only empty recipes come before it.
pub proof fn lemma_fresh_plan_starts_at_first_step(recipes: Seq<Seq<StepModel>>, continue_after_failure: bool)
    ensures
        ({
            let p = plan_spec(recipes, continue_after_failure);
            &&& p.recipes == recipes
            &&& p.continue_after_failure == continue_after_failure
            &&& !p.aborted
            &&& p.step == 0
            &&& forall|k: int| 0 <= k < p.recipe ==> (#[trigger] recipes[k]).len() == 0
            &&& p.recipe < recipes.len() ==> recipes[p.recipe].len() > 0
        }),
{
    lemma_settle_lands(recipes, 0, 0);
}

/// After a step succeeds, the next one is the following step of the same
/// recipe, if it has one; otherwise it is the first step of the next recipe
/// that has steps, only empty recipes being passed over.
pub proof fn lemma_success_goes_to_next_step(p: PlanModel)
    requires
        well_placed(p),
        !is_over(p),
    ensures
        ({
            let q = record_spec(p, true);
            &&& q.recipes == p.recipes
            &&& !q.aborted
            &&& p.step + 1 < p.recipes[p.recipe].len() ==> q.recipe == p.recipe && q.step == p.step + 1
            &&& p.step + 1 >= p.recipes[p.recipe].len() ==> {
                &&& q.recipe > p.recipe
                &&& q.step == 0
                &&& forall|k: int| p.recipe < k < q.recipe ==> (#[trigger] p.recipes[k]).len() == 0
                &&& q.recipe < p.recipes.len() ==> p.recipes[q.recipe].len() > 0
            }
        }),
{
    lemma_settle_lands(p.recipes, p.recipe, p.step + 1);
    if p.step + 1 >= p.recipes[p.recipe].len() {
        assert(settle(p.recipes, p.recipe, p.step + 1) == settle(p.recipes, p.recipe + 1, 0));
        lemma_settle_lands(p.recipes, p.recipe + 1, 0);
    }
}

/// When a step fails and the user asked to continue, the rest of its recipe
/// is skipped and nothing else: the plan goes on with the first step of the
/// next recipe that has steps, only empty recipes being passed over.
pub proof fn lemma_failure_skips_rest_of_recipe(p: PlanModel)
    requires
        well_placed(p),
        !is_over(p),
        p.continue_after_failure,
    ensures
        ({
            let q = record_spec(p, false);
            &&& q.recipes == p.recipes
            &&& !q.aborted
            &&& q.recipe > p.recipe
            &&& q.step == 0
            &&& forall|k: int| p.recipe < k < q.recipe ==> (#[trigger] p.recipes[k]).len() == 0
            &&& q.recipe < p.recipes.len() ==> p.recipes[q.recipe].len() > 0
        }),
{
    lemma_settle_lands(p.recipes, p.recipe + 1, 0);
}

/// When a step fails and the user did not ask to continue, the plan stops:
/// no step comes after, whatever is recorded later.
pub proof fn lemma_failure_stops_plan(p: PlanModel, later: bool)
    requires
        !is_over(p),
        !p.continue_after_failure,
    ensures
        current_spec(record_spec(p, false)) is None,
        record_spec(record_spec(p, false), later) == record_spec(p, false),
{
}

} // verus!
