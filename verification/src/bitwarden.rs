//! One visit to the password vault: log in, unlock, fetch, and then lock and
//! log out whatever the tool did before.
//!
//! The vault is an outside program. Running it is the caller's part: a visit
//! takes the tool as a function from command to outcome.

pub mod laws;
pub mod session;
pub mod token;

use vstd::pervasive::unreached;
use vstd::prelude::*;
use vstd::string::*;
use crate::bitwarden::laws::{
    cleanup_runs_once, finished_visit_stays, run_after_one_more, step_moves_forward,
};
use crate::bitwarden::session::{
    cleaned_up, coherent, command, in_order, initial, issued, outcome, rank, recorded, run, Event,
    OperationSpec, Phase, SessionState, ToolOutput, VaultCommand, VaultEnvironment, VaultError,
    VaultOperation, VaultSession, VaultSetting,
};
use crate::text::optional_text;
use crate::vault_item::VaultItemType;

verus! {

/// Whether `event` is what came of the command that the session waits for:
/// the event that something the tool may answer to that command makes.
pub open spec fn answered<T: Fn(&VaultCommand) -> ToolOutput>(tool: T, state: SessionState, event: Event) -> bool {
    exists|issued: VaultCommand, output: ToolOutput|
        command(state) == Some(issued@) && call_ensures(tool, (&issued,), output) && event
            == recorded(state, output)
}

/// Whether `events` are what a visit that started in `start` got from the
/// tool, one command after the other, none of them after the visit was over.
pub open spec fn visited<T: Fn(&VaultCommand) -> ToolOutput>(tool: T, start: SessionState, events: Seq<Event>) -> bool {
    forall|i: int|
        0 <= i < events.len() ==> run(start, #[trigger] events.take(i)).phase != Phase::Done
            && answered(tool, run(start, events.take(i)), events[i])
}

/// The view of a visit's result.
pub open spec fn fetched_view(fetched: Result<String, VaultError>) -> Result<Seq<char>, VaultError> {
    match fetched {
        Ok(text) => Ok(text@),
        Err(error) => Err(error),
    }
}

/// The client credential that the environment lacks, if it lacks one: the
/// client's name before its secret.
pub open spec fn missing_credential(environment: VaultEnvironment) -> Option<VaultSetting> {
    if environment.client_id is None {
        Some(VaultSetting::ClientId)
    } else if environment.client_secret is None {
        Some(VaultSetting::ClientSecret)
    } else {
        None
    }
}

/// Whether `fetched` is what a whole visit can come to: the outcome of a
/// session that started in `start`, ran the tool for each command in turn,
/// and is over. If any command was run, the lock and the logout were the
/// last two, once each; and every command came in the order of the phases.
pub open spec fn visit_ends_in<T: Fn(&VaultCommand) -> ToolOutput>(
    tool: T,
    start: SessionState,
    fetched: Result<Seq<char>, VaultError>,
) -> bool {
    exists|events: Seq<Event>| #[trigger]
        visited(tool, start, events) && run(start, events).phase == Phase::Done && outcome(
            run(start, events),
        ) == Some(fetched) && (issued(start, events).len() > 0 ==> cleaned_up(
            issued(start, events),
        )) && in_order(issued(start, events))
}

/// Visits the vault for `operation`. Without both client credentials the
/// visit fails before the tool is run. Otherwise the tool is run for the
/// login, the unlock and the errand as far as they go, and then for the
/// lock and the logout in any case. The result is the text fetched, or the
/// first thing that went wrong.
pub fn retrieve<T>(tool: &T, environment: VaultEnvironment, operation: VaultOperation) -> (fetched: Result<
    String,
    VaultError,
>) where T: Fn(&VaultCommand) -> ToolOutput
    requires
        forall|issued: VaultCommand| call_requires(*tool, (&issued,)),
    ensures
        visit_ends_in(
            *tool,
            initial(
                operation@,
                environment.client_id is Some,
                environment.client_secret is Some,
                optional_text(environment.master_password),
            ),
            fetched_view(fetched),
        ),
        missing_credential(environment) matches Some(setting) ==> fetched == Err::<
            String,
            VaultError,
        >(VaultError::Configuration(setting)),
{
    let ghost start = initial(
        operation@,
        environment.client_id is Some,
        environment.client_secret is Some,
        optional_text(environment.master_password),
    );
    let mut session = VaultSession::new(operation, environment);
    let ghost mut events: Seq<Event> = Seq::empty();
    while !session.is_done()
        invariant
            forall|issued: VaultCommand| call_requires(*tool, (&issued,)),
            coherent(session@),
            session@ == run(start, events),
            visited(*tool, start, events),
        decreases 5 - rank(session@.phase),
    {
        let ghost before = session@;
        match session.next_command() {
            Some(issued) => {
                let output = tool(&issued);
                let ghost event = recorded(before, output);
                session.record(output);
                proof {
                    let longer = events.push(event);
                    step_moves_forward(before, event);
                    run_after_one_more(start, events, event);
                    assert(answered(*tool, before, event));
                    assert forall|i: int| 0 <= i < longer.len() implies run(
                        start,
                        #[trigger] longer.take(i),
                    ).phase != Phase::Done && answered(
                        *tool,
                        run(start, longer.take(i)),
                        longer[i],
                    ) by {
                        if i < events.len() {
                            assert(longer.take(i) =~= events.take(i));
                        } else {
                            assert(longer.take(i) =~= events);
                        }
                    }
                    events = longer;
                }
            },
            None => {
                assert(false);
            },
        }
    }
    proof {
        if start.phase != Phase::Done {
            cleanup_runs_once(start, events);
        } else {
            finished_visit_stays(start, events);
        }
    }
    match session.outcome() {
        Some(fetched) => fetched,
        None => unreached(),
    }
}

/// Fetches the list of all items in the vault.
pub fn list_items<T>(tool: &T, environment: VaultEnvironment) -> (fetched: Result<String, VaultError>) where
    T: Fn(&VaultCommand) -> ToolOutput,

    requires
        forall|issued: VaultCommand| call_requires(*tool, (&issued,)),
    ensures
        visit_ends_in(
            *tool,
            initial(
                OperationSpec::ListItems,
                environment.client_id is Some,
                environment.client_secret is Some,
                optional_text(environment.master_password),
            ),
            fetched_view(fetched),
        ),
        missing_credential(environment) matches Some(setting) ==> fetched == Err::<
            String,
            VaultError,
        >(VaultError::Configuration(setting)),
{
    retrieve(tool, environment, VaultOperation::ListItems)
}

/// Fetches from the vault what `item_type` names of the item `item_name`.
pub fn get_item<T>(tool: &T, environment: VaultEnvironment, item_type: &VaultItemType, item_name: &str) -> (fetched:
    Result<String, VaultError>) where T: Fn(&VaultCommand) -> ToolOutput
    requires
        forall|issued: VaultCommand| call_requires(*tool, (&issued,)),
    ensures
        visit_ends_in(
            *tool,
            initial(
                (OperationSpec::GetItem { item_type: *item_type, name: item_name@ }),
                environment.client_id is Some,
                environment.client_secret is Some,
                optional_text(environment.master_password),
            ),
            fetched_view(fetched),
        ),
        missing_credential(environment) matches Some(setting) ==> fetched == Err::<
            String,
            VaultError,
        >(VaultError::Configuration(setting)),
{
    retrieve(
        tool,
        environment,
        VaultOperation::GetItem { item_type: *item_type, name: String::from_str(item_name) },
    )
}

} // verus!
