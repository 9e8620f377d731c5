//! The packaging pipeline as an explicit state machine: Discovery →
//! Generation → per-architecture Build (in fixed order) → per-
//! architecture Placement → Packaging → optional Deploy. Every stage
//! consumes the outcome of one blocking piece of outside work (a file
//! read, a file write, a toolchain or packager exit status) as an event;
//! the machine decides the next stage and names the next piece of work
//! as an action. A toolchain or packaging failure is fatal and ends the
//! run at once; a missing artifact at placement is the one tolerated
//! partial-progress case and is only counted as a warning; a deploy
//! failure is logged and does not invalidate the produced bundle.

use vstd::prelude::*;
use vstd::string::StringExecFns;

verus! {

/// Architecture tag of the first build target.
pub const ABI_ARM64: &'static str = "arm64-v8a";

/// Toolchain triple of the first build target.
pub const TRIPLE_ARM64: &'static str = "aarch64-linux-android";

/// Architecture tag of the second build target.
pub const ABI_ARM32: &'static str = "armeabi-v7a";

/// Toolchain triple of the second build target.
pub const TRIPLE_ARM32: &'static str = "armv7-linux-androideabi";

/// One cross-compilation target: an architecture tag and the toolchain
/// triple that builds for it.
pub struct TargetProfile {
    pub abi: String,
    pub triple: String,
}

/// The fixed, ordered list of target profiles that drives the build
/// loop: two architectures, each mapped to one destination directory
/// name (the tag) and one toolchain triple.
pub fn target_profiles() -> (r: Vec<TargetProfile>)
    ensures
        r@.len() == 2,
        r@[0].abi@ == ABI_ARM64@,
        r@[0].triple@ == TRIPLE_ARM64@,
        r@[1].abi@ == ABI_ARM32@,
        r@[1].triple@ == TRIPLE_ARM32@,
{
    let mut v: Vec<TargetProfile> = Vec::new();
    v.push(TargetProfile { abi: String::from_str(ABI_ARM64), triple: String::from_str(TRIPLE_ARM64) });
    v.push(TargetProfile { abi: String::from_str(ABI_ARM32), triple: String::from_str(TRIPLE_ARM32) });
    v
}

/// The fatal errors of the pipeline, one per failing stage.
#[derive(Clone, Copy, PartialEq, Eq, Structural, Debug)]
pub enum StageError {
    /// Neither conventional entry file exists at the module root.
    MissingEntryFile,
    /// The generated source or manifest could not be written.
    GenerationWrite,
    /// The toolchain exited nonzero while building this target.
    Toolchain { index: usize },
    /// The packaging system exited nonzero.
    Packaging,
}

/// The stage the pipeline is at.
#[derive(Clone, Copy, PartialEq, Eq, Structural, Debug)]
pub enum Stage {
    /// Scanning the module's entry file for entry points.
    Discover,
    /// Writing the generated bridge project.
    Generate,
    /// Building the bridge for the target with this index.
    Build { index: usize },
    /// Placing the artifact of the target with this index.
    Place { index: usize },
    /// Invoking the packaging system.
    Package,
    /// Deploying the bundle to an attached device.
    Deploy,
    /// The run produced a bundle.
    Succeeded,
    /// The run halted on a fatal error.
    Failed { error: StageError },
}

/// The outcome of one piece of outside work, handed back to the machine.
#[derive(Clone, Copy, PartialEq, Eq, Structural, Debug)]
pub enum StageEvent {
    /// Whether an entry file existed and was read.
    Discovered { entry_file_found: bool },
    /// Whether the generated source and manifest were written.
    Generated { write_ok: bool },
    /// Whether the toolchain exited zero for the current target.
    Built { exit_ok: bool },
    /// Whether the current target's artifact was present at its
    /// deterministic path and was copied.
    Placed { artifact_present: bool },
    /// Whether the packaging system exited zero.
    Packaged { exit_ok: bool },
    /// Whether the device-install step exited zero.
    Deployed { exit_ok: bool },
}

/// The piece of outside work the machine asks for next.
#[derive(Clone, Copy, PartialEq, Eq, Structural, Debug)]
pub enum Action {
    /// Read the module's entry file and scan it.
    RunDiscovery,
    /// Write the generated bridge source and manifest.
    WriteBridge,
    /// Invoke the toolchain for the target with this index.
    RunToolchain { index: usize },
    /// Copy the artifact of the target with this index into place.
    PlaceArtifact { index: usize },
    /// Invoke the packaging system.
    RunPackager,
    /// Invoke the device-install step.
    RunDeployer,
    /// The run is over; report this outcome.
    Stop { success: bool },
}

/// The pipeline state: how many targets the fixed profile list holds,
/// whether a deploy was requested, the stage, and the placement
/// counters (artifacts placed, placement warnings logged).
pub struct Pipeline {
    pub targets: usize,
    pub install: bool,
    pub stage: Stage,
    pub placed: usize,
    pub warnings: usize,
    pub deploy_failed: bool,
}

impl Pipeline {
    /// Internal consistency: a build or placement stage names one of
    /// the configured targets, and the placement counters track how
    /// many targets placement has consumed.
    pub open spec fn wf(self) -> bool {
        &&& match self.stage {
            Stage::Discover | Stage::Generate => self.placed == 0 && self.warnings == 0,
            Stage::Build { index } => index < self.targets && self.placed == 0 && self.warnings
                == 0,
            Stage::Place { index } => index < self.targets && self.placed + self.warnings == index,
            _ => true,
        }
        &&& self.placed + self.warnings <= self.targets
    }

    /// Whether the event answers the work the current stage asked for.
    pub open spec fn expects(self, e: StageEvent) -> bool {
        match (self.stage, e) {
            (Stage::Discover, StageEvent::Discovered { .. }) => true,
            (Stage::Generate, StageEvent::Generated { .. }) => true,
            (Stage::Build { .. }, StageEvent::Built { .. }) => true,
            (Stage::Place { .. }, StageEvent::Placed { .. }) => true,
            (Stage::Package, StageEvent::Packaged { .. }) => true,
            (Stage::Deploy, StageEvent::Deployed { .. }) => true,
            _ => false,
        }
    }

    /// A fresh run over `targets` build targets; `install` asks for a
    /// deploy step after packaging.
    pub fn new(targets: usize, install: bool) -> (r: Pipeline)
        ensures
            r == (Pipeline {
                targets,
                install,
                stage: Stage::Discover,
                placed: 0,
                warnings: 0,
                deploy_failed: false,
            }),
            r.wf(),
    {
        Pipeline {
            targets,
            install,
            stage: Stage::Discover,
            placed: 0,
            warnings: 0,
            deploy_failed: false,
        }
    }

    /// Feeds the outcome of the stage's work to the machine.
    pub fn step(&mut self, e: StageEvent)
        requires
            old(self).wf(),
            old(self).expects(e),
        ensures
            *final(self) == spec_step(*old(self), e),
            final(self).wf(),
    {
        let next = match (self.stage, e) {
            (Stage::Discover, StageEvent::Discovered { entry_file_found }) => {
                if entry_file_found {
                    Stage::Generate
                } else {
                    Stage::Failed { error: StageError::MissingEntryFile }
                }
            },
            (Stage::Generate, StageEvent::Generated { write_ok }) => {
                if !write_ok {
                    Stage::Failed { error: StageError::GenerationWrite }
                } else if self.targets == 0 {
                    Stage::Package
                } else {
                    Stage::Build { index: 0 }
                }
            },
            (Stage::Build { index }, StageEvent::Built { exit_ok }) => {
                if !exit_ok {
                    Stage::Failed { error: StageError::Toolchain { index } }
                } else if index + 1 < self.targets {
                    Stage::Build { index: index + 1 }
                } else {
                    Stage::Place { index: 0 }
                }
            },
            (Stage::Place { index }, StageEvent::Placed { artifact_present }) => {
                if artifact_present {
                    self.placed = self.placed + 1;
                } else {
                    self.warnings = self.warnings + 1;
                }
                if index + 1 < self.targets {
                    Stage::Place { index: index + 1 }
                } else {
                    Stage::Package
                }
            },
            (Stage::Package, StageEvent::Packaged { exit_ok }) => {
                if exit_ok {
                    if self.install {
                        Stage::Deploy
                    } else {
                        Stage::Succeeded
                    }
                } else {
                    Stage::Failed { error: StageError::Packaging }
                }
            },
            (Stage::Deploy, StageEvent::Deployed { exit_ok }) => {
                if !exit_ok {
                    self.deploy_failed = true;
                }
                Stage::Succeeded
            },
            (s, _) => s,
        };
        self.stage = next;
    }

    /// The work the current stage asks for.
    pub fn next_action(&self) -> (r: Action)
        ensures
            r == spec_next_action(*self),
    {
        match self.stage {
            Stage::Discover => Action::RunDiscovery,
            Stage::Generate => Action::WriteBridge,
            Stage::Build { index } => Action::RunToolchain { index },
            Stage::Place { index } => Action::PlaceArtifact { index },
            Stage::Package => Action::RunPackager,
            Stage::Deploy => Action::RunDeployer,
            Stage::Succeeded => Action::Stop { success: true },
            Stage::Failed { .. } => Action::Stop { success: false },
        }
    }
}

/// The transition function of the pipeline; an event that does not
/// answer the current stage leaves the state unchanged.
pub open spec fn spec_step(p: Pipeline, e: StageEvent) -> Pipeline {
    match (p.stage, e) {
        (Stage::Discover, StageEvent::Discovered { entry_file_found }) => Pipeline {
            stage: if entry_file_found {
                Stage::Generate
            } else {
                Stage::Failed { error: StageError::MissingEntryFile }
            },
            ..p
        },
        (Stage::Generate, StageEvent::Generated { write_ok }) => Pipeline {
            stage: if !write_ok {
                Stage::Failed { error: StageError::GenerationWrite }
            } else if p.targets == 0 {
                Stage::Package
            } else {
                Stage::Build { index: 0 }
            },
            ..p
        },
        (Stage::Build { index }, StageEvent::Built { exit_ok }) => Pipeline {
            stage: if !exit_ok {
                Stage::Failed { error: StageError::Toolchain { index } }
            } else if index + 1 < p.targets {
                Stage::Build { index: (index + 1) as usize }
            } else {
                Stage::Place { index: 0 }
            },
            ..p
        },
        (Stage::Place { index }, StageEvent::Placed { artifact_present }) => Pipeline {
            stage: if index + 1 < p.targets {
                Stage::Place { index: (index + 1) as usize }
            } else {
                Stage::Package
            },
            placed: if artifact_present {
                (p.placed + 1) as usize
            } else {
                p.placed
            },
            warnings: if artifact_present {
                p.warnings
            } else {
                (p.warnings + 1) as usize
            },
            ..p
        },
        (Stage::Package, StageEvent::Packaged { exit_ok }) => Pipeline {
            stage: if exit_ok {
                if p.install {
                    Stage::Deploy
                } else {
                    Stage::Succeeded
                }
            } else {
                Stage::Failed { error: StageError::Packaging }
            },
            ..p
        },
        (Stage::Deploy, StageEvent::Deployed { exit_ok }) => Pipeline {
            stage: Stage::Succeeded,
            deploy_failed: p.deploy_failed || !exit_ok,
            ..p
        },
        _ => p,
    }
}

/// The action each stage asks for.
pub open spec fn spec_next_action(p: Pipeline) -> Action {
    match p.stage {
        Stage::Discover => Action::RunDiscovery,
        Stage::Generate => Action::WriteBridge,
        Stage::Build { index } => Action::RunToolchain { index },
        Stage::Place { index } => Action::PlaceArtifact { index },
        Stage::Package => Action::RunPackager,
        Stage::Deploy => Action::RunDeployer,
        Stage::Succeeded => Action::Stop { success: true },
        Stage::Failed { .. } => Action::Stop { success: false },
    }
}

/// The pipeline after a whole sequence of events.
pub open spec fn run_steps(p: Pipeline, events: Seq<StageEvent>) -> Pipeline
    decreases events.len(),
{
    if events.len() == 0 {
        p
    } else {
        run_steps(spec_step(p, events[0]), events.drop_first())
    }
}

/// A failed run stays failed: no sequence of further events moves the
/// machine out of the failed state, so no later stage's work is ever
/// asked for again.
pub proof fn lemma_failed_is_absorbing(p: Pipeline, events: Seq<StageEvent>)
    requires
        p.stage is Failed,
    ensures
        run_steps(p, events) == p,
    decreases events.len(),
{
    if events.len() > 0 {
        assert(spec_step(p, events[0]) == p);
        lemma_failed_is_absorbing(p, events.drop_first());
    }
}

/// A toolchain failure is fatal for the whole run: from a building
/// stage, a nonzero exit moves the machine to the failed state naming
/// that target, whose only action is to stop with failure — the
/// remaining targets are never built and the packaging system is never
/// invoked, whatever happens afterwards.
pub proof fn lemma_toolchain_failure_aborts(p: Pipeline, i: usize, later: Seq<StageEvent>)
    requires
        p.stage == (Stage::Build { index: i }),
    ensures
        spec_step(p, StageEvent::Built { exit_ok: false }).stage == (Stage::Failed {
            error: StageError::Toolchain { index: i },
        }),
        spec_next_action(spec_step(p, StageEvent::Built { exit_ok: false })) == (Action::Stop {
            success: false,
        }),
        run_steps(spec_step(p, StageEvent::Built { exit_ok: false }), later) == spec_step(
            p,
            StageEvent::Built { exit_ok: false },
        ),
{
    lemma_failed_is_absorbing(spec_step(p, StageEvent::Built { exit_ok: false }), later);
}

/// A missing artifact at placement is not fatal: the machine counts one
/// warning, keeps every artifact already placed, and goes on to the
/// next target or to packaging.
pub proof fn lemma_missing_artifact_tolerated(p: Pipeline, i: usize)
    requires
        p.wf(),
        p.stage == (Stage::Place { index: i }),
    ensures
        !(spec_step(p, StageEvent::Placed { artifact_present: false }).stage is Failed),
        spec_step(p, StageEvent::Placed { artifact_present: false }).warnings == p.warnings + 1,
        spec_step(p, StageEvent::Placed { artifact_present: false }).placed == p.placed,
{
}

} // verus!
