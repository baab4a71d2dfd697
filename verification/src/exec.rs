//! Commands to be executed in a running container.
use vstd::prelude::*;

use crate::collections::{insert_all, StringKeyMap};
use crate::text::strings_view;
use crate::wait_for::{CmdWaitFor, WaitFor};

verus! {

/// A command to execute in a container, with the conditions to wait for.
#[derive(Debug)]
pub struct ExecCommand {
    cmd: Vec<String>,
    cmd_ready_condition: CmdWaitFor,
    container_ready_conditions: Vec<WaitFor>,
    env_vars: StringKeyMap<String>,
}

impl ExecCommand {
    /// The command and its arguments.
    pub closed spec fn cmd_view(&self) -> Seq<Seq<char>> {
        strings_view(self.cmd@)
    }

    /// The condition on the command's output.
    pub closed spec fn cmd_ready_condition_view(&self) -> CmdWaitFor {
        self.cmd_ready_condition
    }

    /// The conditions on the container.
    pub closed spec fn container_ready_conditions_view(&self) -> Seq<WaitFor> {
        self.container_ready_conditions@
    }

    /// The environment variables of the command.
    pub closed spec fn env_vars_view(&self) -> Map<Seq<char>, String> {
        self.env_vars@
    }

    /// Command to be executed
    pub fn new(cmd: Vec<String>) -> (r: Self)
        ensures
            r.cmd_view() == strings_view(cmd@),
            r.cmd_ready_condition_view() == CmdWaitFor::Nothing,
            r.container_ready_conditions_view().len() == 0,
            r.env_vars_view() == Map::<Seq<char>, String>::empty(),
    {
        ExecCommand {
            cmd,
            cmd_ready_condition: CmdWaitFor::Nothing,
            container_ready_conditions: Vec::new(),
            env_vars: StringKeyMap::new(),
        }
    }

    /// Conditions to be checked on related container
    pub fn with_container_ready_conditions(self, ready_conditions: Vec<WaitFor>) -> (r: Self)
        ensures
            r.cmd_view() == self.cmd_view(),
            r.cmd_ready_condition_view() == self.cmd_ready_condition_view(),
            r.container_ready_conditions_view() == ready_conditions@,
            r.env_vars_view() == self.env_vars_view(),
    {
        ExecCommand { container_ready_conditions: ready_conditions, ..self }
    }

    /// Conditions to be checked on executed command output
    pub fn with_cmd_ready_condition(self, ready_condition: CmdWaitFor) -> (r: Self)
        ensures
            r.cmd_view() == self.cmd_view(),
            r.cmd_ready_condition_view() == ready_condition,
            r.container_ready_conditions_view() == self.container_ready_conditions_view(),
            r.env_vars_view() == self.env_vars_view(),
    {
        ExecCommand { cmd_ready_condition: ready_condition, ..self }
    }

    /// Sets environment variables for the exec command; a later value of a name replaces
    /// an earlier one.
    pub fn with_env_vars(self, env_vars: Vec<(String, String)>) -> (r: Self)
        ensures
            r.cmd_view() == self.cmd_view(),
            r.cmd_ready_condition_view() == self.cmd_ready_condition_view(),
            r.container_ready_conditions_view() == self.container_ready_conditions_view(),
            r.env_vars_view() == insert_all(self.env_vars_view(), env_vars@),
    {
        let mut r = self;
        r.env_vars.extend(env_vars);
        r
    }

    /// The command and its arguments.
    pub fn cmd(&self) -> (r: &Vec<String>)
        ensures
            strings_view(r@) == self.cmd_view(),
    {
        &self.cmd
    }

    /// The condition on the command's output.
    pub fn cmd_ready_condition(&self) -> (r: &CmdWaitFor)
        ensures
            *r == self.cmd_ready_condition_view(),
    {
        &self.cmd_ready_condition
    }

    /// The conditions on the container.
    pub fn container_ready_conditions(&self) -> (r: &Vec<WaitFor>)
        ensures
            r@ == self.container_ready_conditions_view(),
    {
        &self.container_ready_conditions
    }

    /// The environment variables of the command.
    pub fn env_vars(&self) -> (r: &StringKeyMap<String>)
        ensures
            r@ == self.env_vars_view(),
    {
        &self.env_vars
    }
}

impl Default for ExecCommand {
    fn default() -> (r: Self)
        ensures
            r.cmd_view().len() == 0,
            r.cmd_ready_condition_view() == CmdWaitFor::Nothing,
            r.container_ready_conditions_view().len() == 0,
            r.env_vars_view() == Map::<Seq<char>, String>::empty(),
    {
        ExecCommand::new(Vec::new())
    }
}

} // verus!
