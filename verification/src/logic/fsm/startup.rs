//! Starting up.

use vstd::prelude::*;

use crate::config::switchboard::{
    active, board_is, GuardrailsSwitches, Profile, SiteConstants, Switchboard, FIRMWARE_VERSION,
};
use crate::logic::daily_reset::opt_str_view;
use crate::logic::fsm::network::NVS_KEY_VERSION;
use crate::storage::snapshot_store::{
    flag_loaded, push_write, saved_last_run_normal, when_persistent, writes, NvsWrite,
    NvsWriteView, SnapshotStore,
};
use crate::text::opt_text;
use crate::version::{current_version, running_version, VersionError};

verus! {

/// What the other machines need from the start.
#[derive(Debug)]
pub struct StartupContext {
    pub switchboard: Option<Switchboard>,
    /// The state in flash was written by a normal run.
    pub trust_nvs_state: Option<bool>,
    pub version: Option<String>,
}

impl StartupContext {
    pub fn new() -> (r: Self)
        ensures
            r == (StartupContext { switchboard: None, trust_nvs_state: None, version: None }),
    {
        StartupContext { switchboard: None, trust_nvs_state: None, version: None }
    }
}

/// Bringing the tower up.
#[derive(Debug, Clone, Copy)]
pub struct Initialization;

/// What the start leads to.
pub open spec fn startup_leads(
    before: StartupContext,
    begun: Seq<NvsWriteView>,
    profile: Seq<char>,
    site: SiteConstants,
    last_run_normal: Option<u8>,
    after: StartupContext,
    written: Seq<NvsWriteView>,
    r: GuardrailsSwitches,
) -> bool {
    &&& after.switchboard is Some
    &&& board_is(after.switchboard->0, site, Profile::named(profile) == Profile::Admin)
    &&& r == after.switchboard->0.runtime.guardrails
    &&& after.trust_nvs_state == Some(flag_loaded(last_run_normal, true))
    &&& after.version == before.version
    &&& written == (begun + when_persistent(
        last_run_normal is None,
        saved_last_run_normal(true),
    )).push(NvsWriteView::Str { key: NVS_KEY_VERSION@, value: FIRMWARE_VERSION@ })
}

impl Initialization {
    /// Begin: pick the switchboard of the profile, decide whether flash is to be
    /// trusted, and write the image's version. The result is what the motor is to
    /// be guarded by.
    pub fn process(
        &self,
        ctx: &mut StartupContext,
        profile: &str,
        site: &SiteConstants,
        last_run_normal: Option<u8>,
        journal: &mut Vec<NvsWrite>,
    ) -> (r: GuardrailsSwitches)
        ensures
            startup_leads(
                *old(ctx),
                writes(old(journal)@),
                profile@,
                *site,
                last_run_normal,
                *final(ctx),
                writes(final(journal)@),
                r,
            ),
    {
        let switchboard = active(Profile::from_env_str(profile), site);
        let guardrails = switchboard.runtime.guardrails;
        ctx.switchboard = Some(switchboard);
        let trusted = SnapshotStore::new(true).load_last_run_normal_or_init(
            last_run_normal,
            true,
            journal,
        );
        ctx.trust_nvs_state = Some(trusted);
        push_write(
            journal,
            NvsWrite::Str { key: NVS_KEY_VERSION, value: FIRMWARE_VERSION.to_owned() },
        );
        guardrails
    }

    /// Finish: take the version that flash now holds.
    pub fn finish(&self, ctx: &mut StartupContext, stored_version: Option<&str>) -> (r: Result<
        (),
        VersionError,
    >)
        ensures
            final(ctx).switchboard == old(ctx).switchboard,
            final(ctx).trust_nvs_state == old(ctx).trust_nvs_state,
            ({
                let chosen = running_version(opt_str_view(stored_version));
                match r {
                    Ok(_) => chosen is Ok && opt_text(final(ctx).version) == Some(chosen->Ok_0),
                    Err(e) => chosen == Err::<Seq<char>, VersionError>(e)
                        && final(ctx).version == old(ctx).version,
                }
            }),
    {
        match current_version(stored_version, FIRMWARE_VERSION) {
            Ok(version) => {
                ctx.version = Some(version);
                Ok(())
            },
            Err(e) => Err(e),
        }
    }
}

/// A tower whose last run was not a normal one does not trust what it stored; one
/// that never ran does.
pub proof fn only_a_normal_run_is_trusted(stored: Option<u8>)
    ensures
        stored == Some(0u8) ==> !flag_loaded(stored, true),
        stored is None ==> flag_loaded(stored, true),
{
}

} // verus!
