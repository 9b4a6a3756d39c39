//! The environment provisioner: the steps that make sure that the
//! environment of a runtime family is there before a fragment runs in it.
//! Where the marker of the environment exists, nothing is created and
//! nothing is upgraded.

use crate::engine::{is_step, Engine, Job, JobView, Phase, PhaseView, Step};
use crate::language::RuntimeFamily;
use crate::outcome::{FailureClass, FailureClassView};
use crate::protocol::{
    exit, presence, Action, ActionView, Event, EventView, Invocation, InvocationView,
};
use crate::toolchain::{environment_marker, marker_of, BaselineTool};
use vstd::prelude::*;

verus! {

/// How often the upgrade of one baseline tool is tried.
pub const MAX_ATTEMPTS: u8 = 3;

/// The pause between two tries, in milliseconds.
pub const RETRY_DELAY: u64 = 1000;

impl JobView {
    /// Looks for the marker of the environment.
    pub open spec fn probe(self) -> Step {
        (self.at(PhaseView::Probing), ActionView::Probe(environment_marker(self.family)))
    }

    /// Creates the Python environment with the system's interpreter.
    pub open spec fn create_environment(self, second_try: bool) -> Step {
        (
            self.at(PhaseView::CreatingEnvironment { second_try }),
            ActionView::Run(InvocationView::create_environment()),
        )
    }

    /// Upgrades a baseline tool of the Python environment.
    pub open spec fn upgrade(self, tool: BaselineTool, failures: u8) -> Step {
        (
            self.at(PhaseView::UpgradingTool { tool, failures }),
            ActionView::Run(InvocationView::upgrade_tool(self.platform, tool)),
        )
    }

    /// What follows the answer to the probe of the environment. Where the
    /// marker is there, the provisioning is over; where it is not, the
    /// environment of the family is created.
    pub open spec fn probed(self, event: EventView) -> Step {
        if presence(event) {
            self.provisioned()
        } else {
            match self.family {
                RuntimeFamily::Python => self.create_environment(false),
                RuntimeFamily::Node | RuntimeFamily::TypeScript => (
                    self.at(PhaseView::InitializingManifest),
                    ActionView::Run(InvocationView::initialize_manifest()),
                ),
                _ => self.provisioned(),
            }
        }
    }

    /// What follows the answer to the creation of the Python environment.
    /// Once it has run, the baseline tools are upgraded. Where the
    /// interpreter could not be started, it is installed and the creation
    /// tried once more.
    pub open spec fn created(self, second_try: bool, event: EventView) -> Step {
        match exit(event) {
            Ok(_) => self.upgrade(BaselineTool::Pip, 0),
            Err(reason) => if second_try {
                self.abort(reason)
            } else {
                (
                    self.at(PhaseView::InstallingInterpreter),
                    ActionView::Run(InvocationView::install_interpreter(self.platform)),
                )
            },
        }
    }

    /// What follows the answer to the installation of the interpreter.
    pub open spec fn interpreter_installed(self, event: EventView) -> Step {
        match exit(event) {
            Ok(_) => self.create_environment(true),
            Err(reason) => self.abort(reason),
        }
    }

    /// What follows the answer to the upgrade of a baseline tool. A
    /// success goes on to the next tool; a failure is followed by a pause
    /// and another try, and the last failure of `MAX_ATTEMPTS` ends the
    /// provisioning with the package that could not be upgraded.
    pub open spec fn upgraded(self, tool: BaselineTool, failures: u8, event: EventView) -> Step {
        match exit(event) {
            Err(reason) => self.abort(reason),
            Ok(e) => if e.success {
                match tool.following() {
                    Some(next) => self.upgrade(next, 0),
                    None => self.provisioned(),
                }
            } else if failures + 1 >= MAX_ATTEMPTS {
                self.cleanup(Err(FailureClassView::ProvisioningFailed(tool.package())))
            } else {
                (
                    self.at(PhaseView::Pausing { tool, failures: (failures + 1) as u8 }),
                    ActionView::Wait { milliseconds: RETRY_DELAY },
                )
            },
        }
    }

    /// What follows the answer to the initialization of the Node project
    /// manifest.
    pub open spec fn manifest_initialized(self, event: EventView) -> Step {
        match exit(event) {
            Ok(_) => self.provisioned(),
            Err(reason) => self.abort(reason),
        }
    }
}

impl Job {
    pub(crate) fn probe(self) -> (out: (Engine, Action))
        ensures
            is_step(out, self@.probe()),
    {
        let marker = marker_of(self.family);
        (self.at(Phase::Probing), Action::Probe(marker))
    }

    pub(crate) fn create_environment(self, second_try: bool) -> (out: (Engine, Action))
        ensures
            is_step(out, self@.create_environment(second_try)),
    {
        (
            self.at(Phase::CreatingEnvironment { second_try }),
            Action::Run(Invocation::create_environment()),
        )
    }

    pub(crate) fn upgrade(self, tool: BaselineTool, failures: u8) -> (out: (Engine, Action))
        ensures
            is_step(out, self@.upgrade(tool, failures)),
    {
        let invocation = Invocation::upgrade_tool(self.platform, tool);
        (self.at(Phase::UpgradingTool { tool, failures }), Action::Run(invocation))
    }

    pub(crate) fn probed(self, event: Event) -> (out: (Engine, Action))
        ensures
            is_step(out, self@.probed(event@)),
    {
        if event.presence() {
            self.provisioned()
        } else {
            match self.family {
                RuntimeFamily::Python => self.create_environment(false),
                RuntimeFamily::Node | RuntimeFamily::TypeScript => (
                    self.at(Phase::InitializingManifest),
                    Action::Run(Invocation::initialize_manifest()),
                ),
                _ => self.provisioned(),
            }
        }
    }

    pub(crate) fn created(self, second_try: bool, event: Event) -> (out: (Engine, Action))
        ensures
            is_step(out, self@.created(second_try, event@)),
    {
        match event.exit() {
            Ok(_) => self.upgrade(BaselineTool::Pip, 0),
            Err(reason) => {
                if second_try {
                    self.abort(reason)
                } else {
                    let invocation = Invocation::install_interpreter(self.platform);
                    (self.at(Phase::InstallingInterpreter), Action::Run(invocation))
                }
            },
        }
    }

    pub(crate) fn interpreter_installed(self, event: Event) -> (out: (Engine, Action))
        ensures
            is_step(out, self@.interpreter_installed(event@)),
    {
        match event.exit() {
            Ok(_) => self.create_environment(true),
            Err(reason) => self.abort(reason),
        }
    }

    pub(crate) fn upgraded(self, tool: BaselineTool, failures: u8, event: Event) -> (out: (
        Engine,
        Action,
    ))
        ensures
            is_step(out, self@.upgraded(tool, failures, event@)),
    {
        match event.exit() {
            Err(reason) => self.abort(reason),
            Ok(e) => {
                if e.success {
                    match tool.next() {
                        Some(next) => self.upgrade(next, 0),
                        None => self.provisioned(),
                    }
                } else if failures >= MAX_ATTEMPTS - 1 {
                    self.cleanup(
                        Err(FailureClass::ProvisioningFailed(String::from_str(tool.name()))),
                    )
                } else {
                    (
                        self.at(Phase::Pausing { tool, failures: failures + 1 }),
                        Action::Wait { milliseconds: RETRY_DELAY },
                    )
                }
            },
        }
    }

    pub(crate) fn manifest_initialized(self, event: Event) -> (out: (Engine, Action))
        ensures
            is_step(out, self@.manifest_initialized(event@)),
    {
        match event.exit() {
            Ok(_) => self.provisioned(),
            Err(reason) => self.abort(reason),
        }
    }
}

} // verus!
