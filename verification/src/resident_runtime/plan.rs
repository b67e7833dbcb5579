//! Plan construction for resident `Gerbil Scheme` runtime sessions.
//!
//! Every constructor takes the `gxi` program that the default command profile
//! runs; the caller resolves it (`MARLIN_GERBIL_GXI`, else `gxi`).

use vstd::prelude::*;

use super::handle::GerbilResidentRuntimeHandle;
use super::session::{
    GerbilResidentRuntimePlan, GerbilResidentRuntimeSessionId, GerbilResidentRuntimeSessionMode,
};
use crate::runtime::{GerbilCommandProfile, path_join};
use crate::text::seq_views;

verus! {

/// `profile` is the default profile for `program` over `loadpath_root`.
pub open spec fn is_default_profile(profile: GerbilCommandProfile, program: Seq<char>, loadpath_root: Seq<char>) -> bool {
    &&& profile.program@ == program
    &&& seq_views(profile.args@) == seq![":marlin/adapter"@]
    &&& crate::runtime::env_views(profile.env@) == seq![
        ("GERBIL_LOADPATH"@, path_join(loadpath_root, "src"@)),
    ]
    &&& profile.current_dir is None
}

impl GerbilResidentRuntimePlan {
    fn with_mode(
        session_mode: GerbilResidentRuntimeSessionMode,
        loadpath_root: &str,
        session_id: Option<GerbilResidentRuntimeSessionId>,
        gxi_program: &str,
    ) -> (plan: Self)
        ensures
            plan.session_mode == session_mode,
            plan.session_id == session_id,
            is_default_profile(plan.command_profile, gxi_program@, loadpath_root@),
            plan.loadpath_root@ == loadpath_root@,
    {
        GerbilResidentRuntimePlan {
            session_mode,
            session_id,
            command_profile: GerbilCommandProfile::marlin_runtime_module(gxi_program, loadpath_root),
            loadpath_root: loadpath_root.to_owned(),
        }
    }

    /// A plan without a resident session.
    pub fn disabled(loadpath_root: &str, gxi_program: &str) -> (plan: Self)
        ensures
            plan.session_mode == GerbilResidentRuntimeSessionMode::Disabled,
            plan.session_id is None,
            is_default_profile(plan.command_profile, gxi_program@, loadpath_root@),
            plan.loadpath_root@ == loadpath_root@,
    {
        Self::with_mode(GerbilResidentRuntimeSessionMode::Disabled, loadpath_root, None, gxi_program)
    }

    /// A plan whose session shares one runtime context.
    pub fn shared_context(loadpath_root: &str, session_id: &str, gxi_program: &str) -> (plan: Self)
        ensures
            plan.session_mode == GerbilResidentRuntimeSessionMode::SharedContext,
            plan.session_id is Some && plan.session_id->Some_0@ == session_id@,
            is_default_profile(plan.command_profile, gxi_program@, loadpath_root@),
            plan.loadpath_root@ == loadpath_root@,
    {
        Self::with_mode(
            GerbilResidentRuntimeSessionMode::SharedContext,
            loadpath_root,
            Some(GerbilResidentRuntimeSessionId::new(session_id)),
            gxi_program,
        )
    }

    /// A plan whose session forks the runtime context.
    pub fn forked_context(loadpath_root: &str, session_id: &str, gxi_program: &str) -> (plan: Self)
        ensures
            plan.session_mode == GerbilResidentRuntimeSessionMode::ForkedContext,
            plan.session_id is Some && plan.session_id->Some_0@ == session_id@,
            is_default_profile(plan.command_profile, gxi_program@, loadpath_root@),
            plan.loadpath_root@ == loadpath_root@,
    {
        Self::with_mode(
            GerbilResidentRuntimeSessionMode::ForkedContext,
            loadpath_root,
            Some(GerbilResidentRuntimeSessionId::new(session_id)),
            gxi_program,
        )
    }

    /// A plan whose session runs in an isolated runtime.
    pub fn isolated_session(loadpath_root: &str, session_id: &str, gxi_program: &str) -> (plan: Self)
        ensures
            plan.session_mode == GerbilResidentRuntimeSessionMode::IsolatedSession,
            plan.session_id is Some && plan.session_id->Some_0@ == session_id@,
            is_default_profile(plan.command_profile, gxi_program@, loadpath_root@),
            plan.loadpath_root@ == loadpath_root@,
    {
        Self::with_mode(
            GerbilResidentRuntimeSessionMode::IsolatedSession,
            loadpath_root,
            Some(GerbilResidentRuntimeSessionId::new(session_id)),
            gxi_program,
        )
    }

    pub fn with_command_profile(self, command_profile: GerbilCommandProfile) -> (plan: Self)
        ensures
            plan.session_mode == self.session_mode,
            plan.session_id == self.session_id,
            plan.command_profile == command_profile,
            plan.loadpath_root == self.loadpath_root,
    {
        GerbilResidentRuntimePlan {
            session_mode: self.session_mode,
            session_id: self.session_id,
            command_profile,
            loadpath_root: self.loadpath_root,
        }
    }

    /// A handle over this plan once its runtime assets have been written.
    pub fn prepared(self, written_assets: Vec<String>) -> (handle: GerbilResidentRuntimeHandle)
        ensures
            handle.plan == self,
            handle.written_assets == written_assets,
    {
        GerbilResidentRuntimeHandle { plan: self, written_assets }
    }

    /// Whether the plan keeps a resident process: every mode but `Disabled`.
    pub fn requires_process_reuse(&self) -> (reuse: bool)
        ensures
            reuse == (self.session_mode != GerbilResidentRuntimeSessionMode::Disabled),
    {
        self.session_mode != GerbilResidentRuntimeSessionMode::Disabled
    }

    /// Whether the plan isolates session state.
    pub fn isolates_state(&self) -> (isolated: bool)
        ensures
            isolated == (self.session_mode == GerbilResidentRuntimeSessionMode::IsolatedSession),
    {
        self.session_mode == GerbilResidentRuntimeSessionMode::IsolatedSession
    }
}

} // verus!
