//! Start-up: provision a token and stop, or serve.

use vstd::prelude::*;
use crate::config::{config_entry, entry_line, TOKEN_KEY};
use crate::token::{generate_token, is_token};

verus! {

/// Where a starting process finds itself.
#[derive(Clone, Copy, Debug, PartialEq, Eq, Structural)]
pub enum BootState {
    /// No configuration file yet: a token has to be made first.
    Unprovisioned,
    /// The configuration file is there: the service can start.
    Ready,
}

/// A fresh token and the configuration line that stores it.
#[derive(Clone, Debug, PartialEq, Eq)]
pub struct Provisioning {
    /// The token that the operator hands to callers.
    pub token: String,
    /// The line to append to the configuration file.
    pub entry: String,
}

impl Provisioning {
    /// A provisioning is well formed when its token has the shape of a token
    /// and its entry is the line that stores that token under the token's
    /// name.
    pub open spec fn wf(&self) -> bool {
        &&& is_token(self.token@)
        &&& self.entry@ == entry_line(TOKEN_KEY@, self.token@)
    }
}

/// What a starting process has to do.
#[derive(Clone, Debug, PartialEq, Eq)]
pub enum StartupPlan {
    /// Store the entry, tell the operator, and stop.
    Provision(Provisioning),
    /// Start the HTTP service. Nothing is written.
    Serve,
}

/// How a provisioning run ends.
#[derive(Clone, Debug, PartialEq, Eq)]
pub struct Termination {
    /// Exit code of the process.
    pub code: i32,
    /// What the operator is told, if the token was stored.
    pub notice: Option<String>,
}

/// Said before the token is stored.
pub const INSTALL_BANNER: &'static str = ".env file not found. Initiating install process...";

/// Opens the notice to the operator; the token follows.
pub const NOTICE_HEAD: &'static str =
    "!IMPORTANT! Insert the following token in your AstraCore Panel:\n\n";

/// Closes the notice to the operator.
pub const NOTICE_TAIL: &'static str =
    "\n\nThis token will also be available in .env\nThe installation process finished. Restart the daemon to apply new settings. Thank you for using AstraCore!";

/// Exit code of a provisioning run that stored its token.
pub const EXIT_SUCCESS: i32 = 0;

/// Exit code of a provisioning run that could not store its token.
pub const EXIT_FAILURE: i32 = 1;

/// The state that goes with what was found on disk.
pub open spec fn state_for(config_exists: bool) -> BootState {
    if config_exists {
        BootState::Ready
    } else {
        BootState::Unprovisioned
    }
}

/// The notice that hands `token` to the operator.
pub open spec fn notice_text(token: Seq<char>) -> Seq<char> {
    NOTICE_HEAD@ + token + NOTICE_TAIL@
}

/// Reads the state off the one thing that decides it: whether the
/// configuration file exists.
pub fn boot_state(config_exists: bool) -> (state: BootState)
    ensures
        state == state_for(config_exists),
{
    if config_exists {
        BootState::Ready
    } else {
        BootState::Unprovisioned
    }
}

/// Plans the start. A ready process serves and is handed nothing to write;
/// an unprovisioned one gets a fresh token and the line that stores it.
pub fn plan_startup(state: BootState) -> (plan: StartupPlan)
    ensures
        state == BootState::Ready <==> plan is Serve,
        plan matches StartupPlan::Provision(provisioning) ==> provisioning.wf(),
{
    match state {
        BootState::Ready => StartupPlan::Serve,
        BootState::Unprovisioned => {
            let token: String = generate_token();
            let entry: String = config_entry(TOKEN_KEY, token.as_str());
            StartupPlan::Provision(Provisioning { token, entry })
        },
    }
}

/// Writes the notice that hands `token` to the operator.
pub fn operator_notice(token: &str) -> (notice: String)
    ensures
        notice@ == notice_text(token@),
{
    let mut notice: String = NOTICE_HEAD.to_owned();
    notice.append(token);
    notice.append(NOTICE_TAIL);
    notice
}

/// Ends a provisioning run. With the token stored the operator is told and
/// the process succeeds; otherwise it fails and the token is not shown.
pub fn conclude_provisioning(provisioning: &Provisioning, stored: bool) -> (end: Termination)
    ensures
        stored ==> end.code == EXIT_SUCCESS && (end.notice matches Some(notice) && notice@
            == notice_text(provisioning.token@)),
        !stored ==> end.code == EXIT_FAILURE && end.notice is None,
{
    if stored {
        Termination {
            code: EXIT_SUCCESS,
            notice: Some(operator_notice(provisioning.token.as_str())),
        }
    } else {
        Termination { code: EXIT_FAILURE, notice: None }
    }
}

} // verus!
