//! What holds of every visit to the vault, whatever the tool answers.

use vstd::prelude::*;
use crate::bitwarden::session::{
    cleaned_up, coherent, command, in_order, initial, issued, outcome, rank, run, step, token_fault,
    Event, OperationSpec, Phase, SessionState, ToolFault, ToolOutput, VaultCommand, VaultError,
    VaultSetting,
};
use crate::bitwarden::token::{regex_accepts, session_pattern, token_in, TokenFault};
use crate::bitwarden::{answered, visit_ends_in, visited};

verus! {

/// One event more at the end of a run is one step more from where the run
/// had come to.
pub proof fn run_after_one_more(state: SessionState, events: Seq<Event>, event: Event)
    ensures
        run(state, events.push(event)) == step(run(state, events), event),
    decreases events.len(),
{
    let longer = events.push(event);
    if events.len() == 0 {
        assert(longer.drop_first() =~= Seq::empty());
        assert(run(step(state, event), longer.drop_first()) == step(state, event));
    } else {
        assert(longer[0] == events[0]);
        assert(longer.drop_first() =~= events.drop_first().push(event));
        run_after_one_more(step(state, events[0]), events.drop_first(), event);
    }
}

/// A visit that is over stays as it is, whatever events follow.
pub proof fn finished_visit_stays(state: SessionState, events: Seq<Event>)
    requires
        state.phase == Phase::Done,
    ensures
        run(state, events) == state,
    decreases events.len(),
{
    if events.len() > 0 {
        finished_visit_stays(step(state, events[0]), events.drop_first());
    }
}

/// A session starts out coherent: waiting for the login where it has both
/// client credentials, and over where it has not.
pub proof fn initial_is_coherent(
    operation: OperationSpec,
    has_client_id: bool,
    has_client_secret: bool,
    master_password: Option<Seq<char>>,
)
    ensures
        coherent(initial(operation, has_client_id, has_client_secret, master_password)),
        initial(operation, has_client_id, has_client_secret, master_password).phase == if has_client_id
            && has_client_secret {
            Phase::Login
        } else {
            Phase::Done
        },
{
}

/// Every event moves the session forward and leaves it coherent. A session
/// that gave up keeps the reason it gave up for.
pub proof fn step_moves_forward(state: SessionState, event: Event)
    requires
        coherent(state),
    ensures
        coherent(step(state, event)),
        state.phase != Phase::Done ==> rank(step(state, event).phase) > rank(state.phase),
        state.errand matches Some(Err(_)) ==> step(state, event).errand == state.errand,
{
}

/// Coherence lasts through any run.
pub proof fn run_is_coherent(state: SessionState, events: Seq<Event>)
    requires
        coherent(state),
    ensures
        coherent(run(state, events)),
        rank(run(state, events).phase) >= rank(state.phase),
    decreases events.len(),
{
    if events.len() > 0 {
        step_moves_forward(state, events[0]);
        run_is_coherent(step(state, events[0]), events.drop_first());
    }
}

/// No visit takes more than five commands: after five events, from wherever
/// it started, the session is over.
pub proof fn visit_ends_within_five(state: SessionState, events: Seq<Event>)
    requires
        coherent(state),
        events.len() >= 5 - rank(state.phase),
    ensures
        run(state, events).phase == Phase::Done,
    decreases events.len(),
{
    if events.len() > 0 {
        step_moves_forward(state, events[0]);
        visit_ends_within_five(step(state, events[0]), events.drop_first());
    }
}

/// From the lock onwards a finished visit has run the lock and the logout
/// and nothing more.
pub proof fn cleanup_is_all_that_is_left(state: SessionState, events: Seq<Event>)
    requires
        state.phase == Phase::Lock,
        run(state, events).phase == Phase::Done,
    ensures
        issued(state, events) == seq![Phase::Lock, Phase::Logout],
{
    assert(events.len() > 0);
    let next = step(state, events[0]);
    let rest = events.drop_first();
    assert(next.phase == Phase::Logout);
    assert(run(state, events) == run(next, rest));
    assert(rest.len() > 0) by {
        if rest.len() == 0 {
            assert(run(next, rest) == next);
        }
    }
    let last = step(next, rest[0]);
    assert(last.phase == Phase::Done);
    assert(issued(last, rest.drop_first()) =~= Seq::empty());
    assert(issued(next, rest) =~= seq![Phase::Logout]);
    assert(issued(state, events) =~= seq![Phase::Lock, Phase::Logout]);
}

/// Cleanup is guaranteed, and happens once. In a visit that has come to its
/// end, the commands were run in the order of their phases, none twice, and
/// the last two were the lock and then the logout, whatever the commands
/// before them did.
pub proof fn cleanup_runs_once(state: SessionState, events: Seq<Event>)
    requires
        coherent(state),
        rank(state.phase) <= rank(Phase::Lock),
        run(state, events).phase == Phase::Done,
    ensures
        cleaned_up(issued(state, events)),
        in_order(issued(state, events)),
        forall|i: int|
            0 <= i < issued(state, events).len() ==> rank(state.phase) <= rank(
                #[trigger] issued(state, events)[i],
            ),
    decreases events.len(),
{
    let commands = issued(state, events);
    if state.phase == Phase::Lock {
        cleanup_is_all_that_is_left(state, events);
    } else {
        assert(events.len() > 0);
        let next = step(state, events[0]);
        let rest = events.drop_first();
        step_moves_forward(state, events[0]);
        cleanup_runs_once(next, rest);
        let tail = issued(next, rest);
        assert(commands == seq![state.phase] + tail);
        assert forall|i: int| 0 <= i < commands.len() implies rank(state.phase) <= rank(
            #[trigger] commands[i],
        ) by {
            if i > 0 {
                assert(commands[i] == tail[i - 1]);
            }
        }
        assert forall|i: int, j: int| 0 <= i < j < commands.len() implies rank(
            #[trigger] commands[i],
        ) < rank(#[trigger] commands[j]) by {
            assert(commands[j] == tail[j - 1]);
            if i > 0 {
                assert(commands[i] == tail[i - 1]);
            }
        }
        assert(commands[commands.len() - 2] == tail[tail.len() - 2]);
        assert(commands[commands.len() - 1] == tail[tail.len() - 1]);
        assert forall|i: int| 0 <= i < commands.len() - 2 implies rank(#[trigger] commands[i])
            < rank(Phase::Lock) by {
            if i > 0 {
                assert(commands[i] == tail[i - 1]);
            }
        }
    }
}

/// The first failure is the one reported: once a session has given up for
/// some reason, no later outcome, of the cleanup or of anything else, puts
/// another in its place.
pub proof fn first_failure_is_reported(state: SessionState, events: Seq<Event>, error: VaultError)
    requires
        coherent(state),
        state.errand == Some(Err::<Seq<char>, VaultError>(error)),
        run(state, events).phase == Phase::Done,
    ensures
        outcome(run(state, events)) == Some(Err::<Seq<char>, VaultError>(error)),
    decreases events.len(),
{
    if events.len() > 0 {
        step_moves_forward(state, events[0]);
        first_failure_is_reported(step(state, events[0]), events.drop_first(), error);
    }
}

/// An unlock that the tool refuses ends the errand: the visit reports that
/// refusal, and still locks and logs out, once each, and runs nothing else.
pub proof fn refused_unlock_is_cleaned_up(state: SessionState, events: Seq<Event>)
    requires
        coherent(state),
        state.phase == Phase::Unlock,
        events.len() > 0,
        !events[0].success,
        run(state, events).phase == Phase::Done,
    ensures
        outcome(run(state, events)) == Some(
            Err::<Seq<char>, VaultError>(VaultError::ExternalTool(ToolFault::UnlockRefused)),
        ),
        issued(state, events) == seq![Phase::Unlock, Phase::Lock, Phase::Logout],
{
    let next = step(state, events[0]);
    let rest = events.drop_first();
    step_moves_forward(state, events[0]);
    first_failure_is_reported(next, rest, VaultError::ExternalTool(ToolFault::UnlockRefused));
    cleanup_is_all_that_is_left(next, rest);
    assert(issued(state, events) =~= seq![Phase::Unlock] + issued(next, rest));
}

/// An unlock whose output yields no session token ends the errand before
/// anything is fetched: the visit reports why there is no token, and runs
/// only the lock and the logout after the unlock.
pub proof fn missing_token_stops_the_errand(state: SessionState, events: Seq<Event>, fault: TokenFault)
    requires
        coherent(state),
        state.phase == Phase::Unlock,
        events.len() > 0,
        events[0].success,
        events[0].stdout is Some,
        events[0].token == Err::<Seq<char>, TokenFault>(fault),
        run(state, events).phase == Phase::Done,
    ensures
        outcome(run(state, events)) == Some(
            Err::<Seq<char>, VaultError>(VaultError::ExternalTool(token_fault(fault))),
        ),
        issued(state, events) == seq![Phase::Unlock, Phase::Lock, Phase::Logout],
{
    let next = step(state, events[0]);
    let rest = events.drop_first();
    step_moves_forward(state, events[0]);
    first_failure_is_reported(next, rest, VaultError::ExternalTool(token_fault(fault)));
    cleanup_is_all_that_is_left(next, rest);
    assert(issued(state, events) =~= seq![Phase::Unlock] + issued(next, rest));
}

/// A failure of the cleanup is reported when the errand itself went well:
/// the lock's before the logout's; and when both succeed, the text fetched
/// is the outcome.
pub proof fn cleanup_failure_surfaces_after_success(state: SessionState, lock: Event, logout: Event)
    requires
        coherent(state),
        state.phase == Phase::Lock,
        state.errand matches Some(Ok(_)),
    ensures
        outcome(step(step(state, lock), logout)) == if !lock.success {
            Some(Err::<Seq<char>, VaultError>(VaultError::ExternalTool(ToolFault::LockRefused)))
        } else if !logout.success {
            Some(Err(VaultError::ExternalTool(ToolFault::LogoutRefused)))
        } else {
            state.errand
        },
{
}

/// A visit in which every command succeeds runs all five and hands out the
/// text that the fetch printed; the fetch, the lock and the logout are given
/// the token that the unlock printed.
pub proof fn smooth_visit(
    operation: OperationSpec,
    master_password: Seq<char>,
    login: Event,
    unlock: Event,
    fetch: Event,
    lock: Event,
    logout: Event,
)
    requires
        login.success,
        unlock.success,
        unlock.stdout is Some,
        unlock.token is Ok,
        fetch.success,
        fetch.stdout is Some,
        lock.success,
        logout.success,
    ensures
        ({
            let start = initial(operation, true, true, Some(master_password));
            let events = seq![login, unlock, fetch, lock, logout];
            let unlocked = step(step(start, login), unlock);
            &&& outcome(run(start, events)) == Some(
                Ok::<Seq<char>, VaultError>(fetch.stdout->0),
            )
            &&& issued(start, events) == seq![
                Phase::Login,
                Phase::Unlock,
                Phase::Operate,
                Phase::Lock,
                Phase::Logout,
            ]
            &&& command(unlocked)->0.session_token == Some(unlock.token->Ok_0)
            &&& command(step(unlocked, fetch))->0.session_token == Some(unlock.token->Ok_0)
            &&& !run(start, events).logged_in
            &&& !run(start, events).unlocked
        }),
{
    let start = initial(operation, true, true, Some(master_password));
    let events = seq![login, unlock, fetch, lock, logout];
    let s1 = step(start, login);
    let s2 = step(s1, unlock);
    let s3 = step(s2, fetch);
    let s4 = step(s3, lock);
    let s5 = step(s4, logout);
    let e1 = events.drop_first();
    let e2 = e1.drop_first();
    let e3 = e2.drop_first();
    let e4 = e3.drop_first();
    let e5 = e4.drop_first();
    assert(e5.len() == 0);
    assert(run(s5, e5) == s5);
    assert(run(s4, e4) == s5);
    assert(run(s3, e3) == s5);
    assert(run(s2, e2) == s5);
    assert(run(s1, e1) == s5);
    assert(run(start, events) == s5);
    assert(issued(s5, e5) =~= Seq::empty());
    assert(issued(s4, e4) =~= seq![Phase::Logout]);
    assert(issued(s3, e3) =~= seq![Phase::Lock, Phase::Logout]);
    assert(issued(s2, e2) =~= seq![Phase::Operate, Phase::Lock, Phase::Logout]);
    assert(issued(s1, e1) =~= seq![Phase::Unlock, Phase::Operate, Phase::Lock, Phase::Logout]);
    assert(issued(start, events) =~= seq![
        Phase::Login,
        Phase::Unlock,
        Phase::Operate,
        Phase::Lock,
        Phase::Logout,
    ]);
}

/// The first event of a visit is the tool's answer to the first command.
proof fn first_answer<T: Fn(&VaultCommand) -> ToolOutput>(tool: T, start: SessionState, events: Seq<Event>)
    requires
        visited(tool, start, events),
        events.len() > 0,
    ensures
        answered(tool, start, events[0]),
        visited(tool, step(start, events[0]), events.drop_first()),
{
    assert(events.take(0) =~= Seq::empty());
    assert(run(start, events.take(0)) == start);
    let next = step(start, events[0]);
    let rest = events.drop_first();
    assert forall|i: int| 0 <= i < rest.len() implies run(next, #[trigger] rest.take(i)).phase
        != Phase::Done && answered(tool, run(next, rest.take(i)), rest[i]) by {
        let longer = events.take(i + 1);
        assert(longer[0] == events[0]);
        assert(longer.drop_first() =~= rest.take(i));
        assert(run(start, longer) == run(next, rest.take(i)));
        assert(rest[i] == events[i + 1]);
    }
}

/// Without both client credentials a visit fails for the one that is
/// missing, the client's name before its secret, and the tool is not run:
/// no event is an answer of the tool, and no command is issued.
pub proof fn missing_credentials_run_nothing<T: Fn(&VaultCommand) -> ToolOutput>(
    tool: T,
    operation: OperationSpec,
    has_client_id: bool,
    has_client_secret: bool,
    master_password: Option<Seq<char>>,
    fetched: Result<Seq<char>, VaultError>,
)
    requires
        !has_client_id || !has_client_secret,
        visit_ends_in(
            tool,
            initial(operation, has_client_id, has_client_secret, master_password),
            fetched,
        ),
    ensures
        fetched == Err::<Seq<char>, VaultError>(
            VaultError::Configuration(
                if !has_client_id {
                    VaultSetting::ClientId
                } else {
                    VaultSetting::ClientSecret
                },
            ),
        ),
        forall|events: Seq<Event>| #[trigger]
            visited(
                tool,
                initial(operation, has_client_id, has_client_secret, master_password),
                events,
            ) ==> events.len() == 0,
        forall|events: Seq<Event>| #[trigger]
            issued(initial(operation, has_client_id, has_client_secret, master_password), events).len()
                == 0,
{
    let start = initial(operation, has_client_id, has_client_secret, master_password);
    assert forall|events: Seq<Event>| #[trigger] visited(tool, start, events) implies events.len()
        == 0 by {
        if events.len() > 0 {
            assert(events.take(0) =~= Seq::empty());
            assert(run(start, events.take(0)) == start);
        }
    }
    let events = choose|events: Seq<Event>| #[trigger]
        visited(tool, start, events) && run(start, events).phase == Phase::Done && outcome(
            run(start, events),
        ) == Some(fetched) && (issued(start, events).len() > 0 ==> cleaned_up(
            issued(start, events),
        )) && in_order(issued(start, events));
    assert(events.len() == 0);
    assert(run(start, events) == start);
}

/// A tool that lets the login pass and refuses the unlock fails the visit
/// with that refusal, and is still run for the lock and the logout, once
/// each, and not for the errand.
pub proof fn refused_unlock_fails_the_visit<T: Fn(&VaultCommand) -> ToolOutput>(
    tool: T,
    operation: OperationSpec,
    master_password: Seq<char>,
    fetched: Result<Seq<char>, VaultError>,
)
    requires
        forall|command: VaultCommand, output: ToolOutput| #[trigger]
            call_ensures(tool, (&command,), output) && command.phase == Phase::Login
                ==> output.success,
        forall|command: VaultCommand, output: ToolOutput| #[trigger]
            call_ensures(tool, (&command,), output) && command.phase == Phase::Unlock
                ==> !output.success,
        visit_ends_in(tool, initial(operation, true, true, Some(master_password)), fetched),
    ensures
        fetched == Err::<Seq<char>, VaultError>(VaultError::ExternalTool(ToolFault::UnlockRefused)),
        exists|events: Seq<Event>| #[trigger]
            visited(tool, initial(operation, true, true, Some(master_password)), events)
                && issued(initial(operation, true, true, Some(master_password)), events) == seq![
                Phase::Login,
                Phase::Unlock,
                Phase::Lock,
                Phase::Logout,
            ],
{
    let start = initial(operation, true, true, Some(master_password));
    let events = choose|events: Seq<Event>| #[trigger]
        visited(tool, start, events) && run(start, events).phase == Phase::Done && outcome(
            run(start, events),
        ) == Some(fetched) && (issued(start, events).len() > 0 ==> cleaned_up(
            issued(start, events),
        )) && in_order(issued(start, events));
    assert(events.len() > 0);
    first_answer(tool, start, events);
    let unlocking = step(start, events[0]);
    let rest = events.drop_first();
    assert(unlocking.phase == Phase::Unlock);
    assert(run(start, events) == run(unlocking, rest));
    assert(rest.len() > 0) by {
        if rest.len() == 0 {
            assert(run(unlocking, rest) == unlocking);
        }
    }
    first_answer(tool, unlocking, rest);
    refused_unlock_is_cleaned_up(unlocking, rest);
    assert(issued(start, events) =~= seq![Phase::Login] + issued(unlocking, rest));
}

/// A tool whose unlock prints text without the session token fails the
/// visit for want of the token, or, where the matcher does not take the
/// pattern, for that; and it is not run for the errand: after the unlock
/// come the lock and the logout.
pub proof fn missing_token_fails_the_visit<T: Fn(&VaultCommand) -> ToolOutput>(
    tool: T,
    operation: OperationSpec,
    master_password: Seq<char>,
    fetched: Result<Seq<char>, VaultError>,
)
    requires
        forall|command: VaultCommand, output: ToolOutput| #[trigger]
            call_ensures(tool, (&command,), output) && command.phase == Phase::Login
                ==> output.success,
        forall|command: VaultCommand, output: ToolOutput| #[trigger]
            call_ensures(tool, (&command,), output) && command.phase == Phase::Unlock
                ==> output.success && (output.stdout matches Some(text) && token_in(text@) is None),
        visit_ends_in(tool, initial(operation, true, true, Some(master_password)), fetched),
    ensures
        fetched == Err::<Seq<char>, VaultError>(
            VaultError::ExternalTool(
                if regex_accepts(session_pattern()) {
                    ToolFault::SessionKeyMissing
                } else {
                    ToolFault::PatternRejected
                },
            ),
        ),
        exists|events: Seq<Event>| #[trigger]
            visited(tool, initial(operation, true, true, Some(master_password)), events)
                && issued(initial(operation, true, true, Some(master_password)), events) == seq![
                Phase::Login,
                Phase::Unlock,
                Phase::Lock,
                Phase::Logout,
            ],
{
    let start = initial(operation, true, true, Some(master_password));
    let events = choose|events: Seq<Event>| #[trigger]
        visited(tool, start, events) && run(start, events).phase == Phase::Done && outcome(
            run(start, events),
        ) == Some(fetched) && (issued(start, events).len() > 0 ==> cleaned_up(
            issued(start, events),
        )) && in_order(issued(start, events));
    assert(events.len() > 0);
    first_answer(tool, start, events);
    let unlocking = step(start, events[0]);
    let rest = events.drop_first();
    assert(unlocking.phase == Phase::Unlock);
    assert(run(start, events) == run(unlocking, rest));
    assert(rest.len() > 0) by {
        if rest.len() == 0 {
            assert(run(unlocking, rest) == unlocking);
        }
    }
    first_answer(tool, unlocking, rest);
    assert(rest[0].token is Err);
    missing_token_stops_the_errand(unlocking, rest, rest[0].token->Err_0);
    assert(issued(start, events) =~= seq![Phase::Login] + issued(unlocking, rest));
}

} // verus!
