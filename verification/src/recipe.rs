use vstd::prelude::*;

verus! {

/// The steps that install one thing the user picked, run in order.
#[derive(Clone, Debug)]
pub struct InstallRecipe {
    pub steps: Vec<InstallStep>,
}

/// One action of an install recipe.
#[derive(Clone, Debug)]
pub enum InstallStep {
    /// For header nodes, etc
    NoOp,
    /// Make this rust channel the user's default toolchain, via rustup.
    RustChannel(String),
    /// A package from the distribution's archive. No installer carries these
    /// out: the wizard ends such a step with `StepError::NoAptInstaller`,
    /// since nothing says how they are to be installed.
    Apt(String),
    /// A crate installed with `cargo install --locked`. The menu offers none
    /// at present.
    CargoInstall(String),
    /// A snap, optionally with classic confinement.
    Snap { package_name: String, classic_confinement: bool },
    /// `alias name=command`
    MakeAlias { name: String, command: String },
}

/// An install step, with its texts seen as sequences of characters.
pub enum StepModel {
    NoOp,
    RustChannel(Seq<char>),
    Apt(Seq<char>),
    CargoInstall(Seq<char>),
    Snap { package_name: Seq<char>, classic_confinement: bool },
    MakeAlias { name: Seq<char>, command: Seq<char> },
}

impl View for InstallStep {
    type V = StepModel;

    open spec fn view(&self) -> StepModel {
        match self {
            InstallStep::NoOp => StepModel::NoOp,
            InstallStep::RustChannel(c) => StepModel::RustChannel(c@),
            InstallStep::Apt(p) => StepModel::Apt(p@),
            InstallStep::CargoInstall(p) => StepModel::CargoInstall(p@),
            InstallStep::Snap { package_name, classic_confinement } => StepModel::Snap {
                package_name: package_name@,
                classic_confinement: *classic_confinement,
            },
            InstallStep::MakeAlias { name, command } => StepModel::MakeAlias {
                name: name@,
                command: command@,
            },
        }
    }
}

/// The steps of a sequence of install steps, each as its model.
pub open spec fn steps_model(steps: Seq<InstallStep>) -> Seq<StepModel> {
    steps.map_values(|s: InstallStep| s@)
}

impl View for InstallRecipe {
    type V = Seq<StepModel>;

    open spec fn view(&self) -> Seq<StepModel> {
        steps_model(self.steps@)
    }
}

impl InstallRecipe {
    /// A recipe of the given steps.
    pub fn new(steps: Vec<InstallStep>) -> (recipe: InstallRecipe)
        ensures
            recipe.steps@ == steps@,
    {
        InstallRecipe { steps }
    }

    /// A recipe of the one given step.
    pub fn onestep(step: InstallStep) -> (recipe: InstallRecipe)
        ensures
            recipe.steps@ == seq![step],
    {
        InstallRecipe::new(vec![step])
    }

    /// A recipe that does nothing: a single `NoOp` step.
    pub fn noop() -> (recipe: InstallRecipe)
        ensures
            recipe@ == seq![StepModel::NoOp],
    {
        let recipe = InstallRecipe::onestep(InstallStep::NoOp);
        assert(recipe@ =~= seq![StepModel::NoOp]);
        recipe
    }
}

} // verus!
