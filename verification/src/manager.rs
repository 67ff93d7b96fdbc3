//! The session manager: the registry of live sessions together with the
//! source of their identifiers.
//!
//! A manager is an ordinary value. Whoever shares one between tasks keeps
//! it behind a lock, and holds that lock only for the call into the
//! manager: a command is given a reference to the session's handle, which
//! the caller clones before it lets the lock go and talks to the browser.
//!
//! Identifiers come from stamps that only grow: the stamp of a launch is
//! the clock reading handed in, or the stamp after the last one issued
//! where the clock has not moved on. So no identifier is issued twice in
//! the life of a manager, not even after its session was closed.

use vstd::prelude::*;
use crate::config::{ChromiumInstance, REMOTE_DEBUGGING_PORT};
use crate::dispatch::{Action, ActionView, Command, CommandRun, CommandView, RunView};
use crate::error::{Failure, SessionError, Stage};
use crate::registry::Registry;
use crate::session_id::{id_text, issued_below, lemma_id_text_injective, session_id};
use crate::text::{decimal, is_digit, lemma_decimal_digits, lemma_decimal_nonempty};

verus! {

/// A manager as contracts speak of it.
pub struct ManagerView<H> {
    /// The handle of each live session.
    pub sessions: Map<Seq<char>, H>,
    /// The least stamp that has not been used for an identifier.
    pub next_stamp: nat,
}

impl<H> ManagerView<H> {
    /// Every live session has an identifier that was issued.
    pub open spec fn wf(self) -> bool {
        forall|id: Seq<char>| #[trigger]
            self.sessions.dom().contains(id) ==> issued_below(id, self.next_stamp)
    }

    /// Whether a stamp is left to issue.
    pub open spec fn can_issue(self) -> bool {
        self.next_stamp <= u64::MAX
    }

    /// The stamp of a launch at clock reading `now`.
    pub open spec fn stamp_at(self, now: nat) -> nat {
        if now >= self.next_stamp {
            now
        } else {
            self.next_stamp
        }
    }

    /// The manager after a launch at clock reading `now` that registered
    /// `handle`.
    pub open spec fn launched(self, handle: H, now: nat) -> ManagerView<H> {
        ManagerView {
            sessions: self.sessions.insert(id_text(self.stamp_at(now)), handle),
            next_stamp: self.stamp_at(now) + 1,
        }
    }

    /// The manager after the session `id` was closed.
    pub open spec fn closed(self, id: Seq<char>) -> ManagerView<H> {
        ManagerView { sessions: self.sessions.remove(id), next_stamp: self.next_stamp }
    }
}

/// The stamps of launches made one after another at the clock readings
/// `nows`, where `next` is the least stamp not yet used.
pub open spec fn issued_stamps(next: nat, nows: Seq<nat>) -> Seq<nat>
    decreases nows.len(),
{
    if nows.len() == 0 {
        Seq::empty()
    } else {
        let stamp = if nows[0] >= next {
            nows[0]
        } else {
            next
        };
        seq![stamp] + issued_stamps(stamp + 1, nows.drop_first())
    }
}

/// Each launch of a row takes a stamp that is not below the least unused
/// one, and a later launch takes a greater stamp than an earlier one.
pub proof fn lemma_stamps_grow(next: nat, nows: Seq<nat>)
    ensures
        issued_stamps(next, nows).len() == nows.len(),
        forall|i: int| 0 <= i < nows.len() ==> #[trigger] issued_stamps(next, nows)[i] >= next,
        forall|i: int, j: int|
            0 <= i < j < nows.len() ==> #[trigger] issued_stamps(next, nows)[i]
                < #[trigger] issued_stamps(next, nows)[j],
    decreases nows.len(),
{
    if nows.len() > 0 {
        let stamp = if nows[0] >= next {
            nows[0]
        } else {
            next
        };
        let rest = issued_stamps(stamp + 1, nows.drop_first());
        lemma_stamps_grow(stamp + 1, nows.drop_first());
        let all = issued_stamps(next, nows);
        assert(all =~= seq![stamp] + rest);
        assert forall|i: int| 0 <= i < nows.len() implies #[trigger] all[i] >= next by {
            if i > 0 {
                assert(all[i] == rest[i - 1]);
            }
        }
        assert forall|i: int, j: int| 0 <= i < j < nows.len() implies #[trigger] all[i]
            < #[trigger] all[j] by {
            assert(all[j] == rest[j - 1]);
            if i > 0 {
                assert(all[i] == rest[i - 1]);
            }
        }
    }
}

/// Sessions launched one after another all get different identifiers,
/// whatever the clock reads at each launch, and whether or not sessions
/// are closed in between.
pub proof fn lemma_launches_give_distinct_ids(next: nat, nows: Seq<nat>)
    ensures
        forall|i: int, j: int|
            0 <= i < j < nows.len() ==> id_text(#[trigger] issued_stamps(next, nows)[i])
                != id_text(#[trigger] issued_stamps(next, nows)[j]),
{
    lemma_stamps_grow(next, nows);
    let all = issued_stamps(next, nows);
    assert forall|i: int, j: int| 0 <= i < j < nows.len() implies id_text(#[trigger] all[i])
        != id_text(#[trigger] all[j]) by {
        if id_text(all[i]) == id_text(all[j]) {
            lemma_id_text_injective(all[i], all[j]);
        }
    }
}

/// The first launch of a row gets the stamp that the manager's contract
/// names, and the row goes on from the manager that this launch leaves.
pub proof fn lemma_row_follows_manager<H>(manager: ManagerView<H>, handle: H, nows: Seq<nat>)
    requires
        nows.len() > 0,
    ensures
        issued_stamps(manager.next_stamp, nows)[0] == manager.stamp_at(nows[0]),
        issued_stamps(manager.next_stamp, nows).drop_first() == issued_stamps(
            manager.launched(handle, nows[0]).next_stamp,
            nows.drop_first(),
        ),
{
    let stamp = manager.stamp_at(nows[0]);
    assert(issued_stamps(manager.next_stamp, nows).drop_first() =~= issued_stamps(
        stamp + 1,
        nows.drop_first(),
    ));
}

/// Where a stamp is left to issue, a launch registers its handle under
/// `sess_` followed by the decimal digits of the launch's stamp: at least
/// one digit, and nothing after the digits. The stamp is the clock reading
/// where the clock has moved on since the last launch.
pub proof fn lemma_launch_id<H>(manager: ManagerView<H>, handle: H, now: nat)
    requires
        manager.wf(),
        manager.can_issue(),
    ensures
        ({
            let stamp = manager.stamp_at(now);
            let id = id_text(stamp);
            &&& id == "sess_"@ + decimal(stamp)
            &&& decimal(stamp).len() >= 1
            &&& forall|i: int| 0 <= i < decimal(stamp).len() ==> is_digit(#[trigger] decimal(stamp)[i])
            &&& now >= manager.next_stamp ==> stamp == now
            &&& manager.launched(handle, now).sessions.contains_key(id)
            &&& manager.launched(handle, now).sessions[id] == handle
        }),
{
    lemma_decimal_nonempty(manager.stamp_at(now));
    lemma_decimal_digits(manager.stamp_at(now));
}

/// A launch gives an identifier that no live session has, so it replaces
/// no session: every session that was live stays live with its handle.
pub proof fn lemma_launch_keeps_sessions<H>(manager: ManagerView<H>, handle: H, now: nat)
    requires
        manager.wf(),
    ensures
        !manager.sessions.contains_key(id_text(manager.stamp_at(now))),
        manager.launched(handle, now).wf(),
        forall|id: Seq<char>| #[trigger]
            manager.sessions.contains_key(id) ==> manager.launched(
                handle,
                now,
            ).sessions.contains_key(id) && manager.launched(handle, now).sessions[id]
                == manager.sessions[id],
{
    let stamp = manager.stamp_at(now);
    let fresh = id_text(stamp);
    if manager.sessions.dom().contains(fresh) {
        let earlier = choose|earlier: nat|
            earlier < manager.next_stamp && fresh == #[trigger] id_text(earlier);
        lemma_id_text_injective(earlier, stamp);
    }
    let after = manager.launched(handle, now);
    assert forall|id: Seq<char>| #[trigger] after.sessions.dom().contains(id) implies issued_below(
        id,
        after.next_stamp,
    ) by {
        if id == fresh {
            assert(stamp < after.next_stamp && id == id_text(stamp));
        } else {
            assert(manager.sessions.dom().contains(id));
            let earlier = choose|earlier: nat|
                earlier < manager.next_stamp && id == #[trigger] id_text(earlier);
            assert(earlier < after.next_stamp && id == id_text(earlier));
        }
    }
}

/// Once a session is closed its identifier is unknown: closing it again
/// finds nothing, and so does every command. The identifier is not issued
/// again either, so it stays unknown.
pub proof fn lemma_closed_stays_unknown<H>(manager: ManagerView<H>, id: Seq<char>, handle: H, now: nat)
    requires
        manager.wf(),
        manager.sessions.contains_key(id),
    ensures
        !manager.closed(id).sessions.contains_key(id),
        manager.closed(id).closed(id) == manager.closed(id),
        manager.closed(id).wf(),
        !manager.closed(id).launched(handle, now).sessions.contains_key(id),
{
    let gone = manager.closed(id);
    assert(gone.closed(id).sessions =~= gone.sessions);
    assert forall|other: Seq<char>| #[trigger] gone.sessions.dom().contains(other) implies issued_below(
        other,
        gone.next_stamp,
    ) by {
        assert(manager.sessions.dom().contains(other));
    }
    assert(manager.sessions.dom().contains(id));
    let earlier = choose|earlier: nat|
        earlier < manager.next_stamp && id == #[trigger] id_text(earlier);
    if id_text(gone.stamp_at(now)) == id {
        lemma_id_text_injective(earlier, gone.stamp_at(now));
    }
}

/// Closing an identifier that is not live changes nothing.
pub proof fn lemma_close_unknown_changes_nothing<H>(manager: ManagerView<H>, id: Seq<char>)
    requires
        !manager.sessions.contains_key(id),
    ensures
        manager.closed(id) == manager,
{
    assert(manager.closed(id).sessions =~= manager.sessions);
}

/// Sessions do not depend on each other: closing one session, or
/// launching a new one, leaves every other session live with its handle.
pub proof fn lemma_other_sessions_untouched<H>(
    manager: ManagerView<H>,
    id: Seq<char>,
    other: Seq<char>,
    handle: H,
    now: nat,
)
    requires
        manager.wf(),
        manager.sessions.contains_key(other),
        other != id,
    ensures
        manager.closed(id).sessions.contains_key(other),
        manager.closed(id).sessions[other] == manager.sessions[other],
        manager.launched(handle, now).sessions.contains_key(other),
        manager.launched(handle, now).sessions[other] == manager.sessions[other],
{
    lemma_launch_keeps_sessions(manager, handle, now);
}

/// Where a session stands in its life.
#[derive(Debug, Clone, Copy, PartialEq, Eq, Structural)]
pub enum SessionState {
    /// Its identifier is not issued yet.
    Launching,
    /// It is registered, and commands reach it.
    Active,
    /// It was closed. This is the end: it is never active again.
    Closed,
}

impl SessionState {
    /// How far in its life a session in this state is.
    pub open spec fn rank(self) -> nat {
        match self {
            SessionState::Launching => 0,
            SessionState::Active => 1,
            SessionState::Closed => 2,
        }
    }
}

impl<H> ManagerView<H> {
    /// Where the session with the identifier `id` stands.
    pub open spec fn state_of(self, id: Seq<char>) -> SessionState {
        if self.sessions.contains_key(id) {
            SessionState::Active
        } else if issued_below(id, self.next_stamp) {
            SessionState::Closed
        } else {
            SessionState::Launching
        }
    }
}

/// A session only moves forward in its life, whatever is launched or
/// closed: once active it is never again unissued, and once closed it
/// stays closed. A command changes no session's state, as it changes
/// nothing in the manager.
pub proof fn lemma_life_moves_forward<H>(
    manager: ManagerView<H>,
    id: Seq<char>,
    other: Seq<char>,
    handle: H,
    now: nat,
)
    requires
        manager.wf(),
    ensures
        manager.closed(other).state_of(id).rank() >= manager.state_of(id).rank(),
        manager.launched(handle, now).state_of(id).rank() >= manager.state_of(id).rank(),
        manager.closed(id).state_of(id) != SessionState::Active,
{
    let stamp = manager.stamp_at(now);
    let after = manager.launched(handle, now);
    if issued_below(id, manager.next_stamp) {
        let earlier = choose|earlier: nat|
            earlier < manager.next_stamp && id == #[trigger] id_text(earlier);
        assert(earlier < after.next_stamp && id == id_text(earlier));
        if id == id_text(stamp) {
            lemma_id_text_injective(earlier, stamp);
        }
    }
    if manager.sessions.contains_key(id) {
        assert(manager.sessions.dom().contains(id));
    }
}

/// A command that was accepted for a live session.
pub struct Dispatch<'a, H> {
    /// The session's handle.
    pub handle: &'a H,
    /// The command under way.
    pub run: CommandRun,
    /// The action that the command begins with.
    pub action: Action,
}

/// The manager of browser sessions.
pub struct SessionManager<H> {
    sessions: Registry<H>,
    /// The stamp of the identifier issued last.
    last_stamp: Option<u64>,
}

impl<H> View for SessionManager<H> {
    type V = ManagerView<H>;

    closed spec fn view(&self) -> ManagerView<H> {
        ManagerView {
            sessions: self.sessions@,
            next_stamp: match self.last_stamp {
                Some(stamp) => (stamp + 1) as nat,
                None => 0,
            },
        }
    }
}

impl<H> SessionManager<H> {
    /// The registry holds no identifier twice, and every identifier in it
    /// was issued by this manager.
    pub closed spec fn wf(&self) -> bool {
        self.sessions.wf() && self@.wf()
    }

    /// What holds of every manager holds of its view.
    pub proof fn lemma_view_wf(&self)
        requires
            self.wf(),
        ensures
            self@.wf(),
    {
    }

    /// A manager without sessions that has issued no identifier.
    pub fn new() -> (manager: Self)
        ensures
            manager.wf(),
            manager@.sessions == Map::<Seq<char>, H>::empty(),
            manager@.next_stamp == 0,
    {
        SessionManager { sessions: Registry::new(), last_stamp: None }
    }

    /// Completes a launch. `connection` is what connecting to the browser
    /// gave: the handle of the new connection, or why there is none. `now`
    /// is the clock reading in milliseconds.
    ///
    /// - Without a connection the launch fails with a connection failure
    ///   that quotes the reason, and the manager stays as it was.
    /// - Where no stamp is left to issue the launch fails with a
    ///   configuration failure, the manager stays as it was, and the
    ///   handle is let go.
    /// - Otherwise the handle is registered under the identifier of the
    ///   launch's stamp, which no session has had before, and the caller
    ///   is told the identifier, the blank address and the conventional
    ///   port.
    pub fn launch_chromium_browser(&mut self, connection: Result<H, String>, now: u64) -> (outcome:
        Result<ChromiumInstance, SessionError>)
        requires
            old(self).wf(),
        ensures
            final(self).wf(),
            match connection {
                Err(detail) => {
                    &&& final(self)@ == old(self)@
                    &&& outcome matches Err(error) && error@ == Stage::Launch.failure(detail@)
                },
                Ok(handle) => if old(self)@.can_issue() {
                    &&& final(self)@ == old(self)@.launched(handle, now as nat)
                    &&& !old(self)@.sessions.contains_key(id_text(old(self)@.stamp_at(now as nat)))
                    &&& outcome matches Ok(instance) && instance.id@ == id_text(
                        old(self)@.stamp_at(now as nat),
                    ) && instance.url@ == "about:blank"@ && instance.port == REMOTE_DEBUGGING_PORT
                } else {
                    &&& final(self)@ == old(self)@
                    &&& outcome matches Err(error) && error@ == Failure::Configuration(
                        "No session identifier is left to issue"@,
                    )
                },
            },
    {
        let handle = match connection {
            Ok(handle) => handle,
            Err(detail) => {
                return Err(Stage::Launch.failed(detail.as_str()));
            },
        };
        let stamp: u64 = match self.last_stamp {
            None => now,
            Some(last) => {
                if last == u64::MAX {
                    return Err(
                        SessionError::ConfigurationError(
                            String::from_str("No session identifier is left to issue"),
                        ),
                    );
                }
                if now > last {
                    now
                } else {
                    last + 1
                }
            },
        };
        let id = session_id(stamp);
        proof {
            lemma_launch_keeps_sessions(self@, handle, now as nat);
        }
        let registered = self.sessions.register(id.clone(), handle);
        self.last_stamp = Some(stamp);
        assert(registered is Ok);
        Ok(ChromiumInstance { id, url: String::from_str("about:blank"), port: REMOTE_DEBUGGING_PORT })
    }

    /// Accepts `command` for the session `instance_id`, if that session is
    /// live: gives its handle, the command under way and the action that
    /// it begins with. For any other identifier nothing is started and
    /// the outcome is `NotFound`.
    pub fn dispatch<'a>(&'a self, instance_id: &str, command: Command) -> (outcome: Result<
        Dispatch<'a, H>,
        SessionError,
    >)
        requires
            self.wf(),
        ensures
            match outcome {
                Ok(accepted) => {
                    &&& self@.sessions.contains_key(instance_id@)
                    &&& *accepted.handle == self@.sessions[instance_id@]
                    &&& accepted.run@ == RunView::initial(command@)
                    &&& accepted.run@.wf()
                    &&& accepted.action@ == RunView::first_action(command@)
                },
                Err(error) => !self@.sessions.contains_key(instance_id@) && error@
                    == Failure::NotFound,
            },
    {
        match self.sessions.lookup(instance_id) {
            Ok(handle) => {
                let (run, action) = CommandRun::begin(command);
                Ok(Dispatch { handle, run, action })
            },
            Err(error) => Err(error),
        }
    }

    /// Starts a navigation of the session `instance_id` to `url`: a new
    /// page is to be opened on `url`.
    pub fn navigate_to_url<'a>(&'a self, instance_id: String, url: String) -> (outcome: Result<
        Dispatch<'a, H>,
        SessionError,
    >)
        requires
            self.wf(),
        ensures
            match outcome {
                Ok(accepted) => {
                    &&& self@.sessions.contains_key(instance_id@)
                    &&& *accepted.handle == self@.sessions[instance_id@]
                    &&& accepted.run@ == RunView::initial(CommandView::Navigate { url: url@ })
                    &&& accepted.run@.wf()
                    &&& accepted.action@ == (ActionView::OpenPage { url: url@ })
                },
                Err(error) => !self@.sessions.contains_key(instance_id@) && error@
                    == Failure::NotFound,
            },
    {
        self.dispatch(instance_id.as_str(), Command::Navigate { url })
    }

    /// Starts the evaluation of `script` in the session `instance_id`: the
    /// session's pages are to be listed.
    pub fn execute_js_in_browser<'a>(&'a self, instance_id: String, script: String) -> (outcome:
        Result<Dispatch<'a, H>, SessionError>)
        requires
            self.wf(),
        ensures
            match outcome {
                Ok(accepted) => {
                    &&& self@.sessions.contains_key(instance_id@)
                    &&& *accepted.handle == self@.sessions[instance_id@]
                    &&& accepted.run@ == RunView::initial(
                        CommandView::ExecuteScript { script: script@ },
                    )
                    &&& accepted.run@.wf()
                    &&& accepted.action@ == ActionView::ListPages
                },
                Err(error) => !self@.sessions.contains_key(instance_id@) && error@
                    == Failure::NotFound,
            },
    {
        self.dispatch(instance_id.as_str(), Command::ExecuteScript { script })
    }

    /// Starts a screenshot of the session `instance_id` that is to be
    /// stored at `output_path`: the session's pages are to be listed.
    pub fn take_browser_screenshot<'a>(&'a self, instance_id: String, output_path: String) -> (outcome:
        Result<Dispatch<'a, H>, SessionError>)
        requires
            self.wf(),
        ensures
            match outcome {
                Ok(accepted) => {
                    &&& self@.sessions.contains_key(instance_id@)
                    &&& *accepted.handle == self@.sessions[instance_id@]
                    &&& accepted.run@ == RunView::initial(
                        CommandView::Screenshot { path: output_path@ },
                    )
                    &&& accepted.run@.wf()
                    &&& accepted.action@ == ActionView::ListPages
                },
                Err(error) => !self@.sessions.contains_key(instance_id@) && error@
                    == Failure::NotFound,
            },
    {
        self.dispatch(instance_id.as_str(), Command::Screenshot { path: output_path })
    }

    /// Starts the reading of the markup of the session `instance_id`: the
    /// session's pages are to be listed.
    pub fn get_page_content<'a>(&'a self, instance_id: String) -> (outcome: Result<
        Dispatch<'a, H>,
        SessionError,
    >)
        requires
            self.wf(),
        ensures
            match outcome {
                Ok(accepted) => {
                    &&& self@.sessions.contains_key(instance_id@)
                    &&& *accepted.handle == self@.sessions[instance_id@]
                    &&& accepted.run@ == RunView::initial(CommandView::GetContent)
                    &&& accepted.run@.wf()
                    &&& accepted.action@ == ActionView::ListPages
                },
                Err(error) => !self@.sessions.contains_key(instance_id@) && error@
                    == Failure::NotFound,
            },
    {
        self.dispatch(instance_id.as_str(), Command::GetContent)
    }

    /// Closes the session `instance_id`: takes it out of the registry and
    /// releases its handle. Gives `true` where there was such a session,
    /// and `NotFound` where there was none.
    ///
    /// Nothing is sent to the browser. The connection ends when its last
    /// handle is released: a command that still holds a clone of the
    /// handle goes on with it.
    pub fn close_chromium_browser(&mut self, instance_id: String) -> (outcome: Result<
        bool,
        SessionError,
    >)
        requires
            old(self).wf(),
        ensures
            final(self).wf(),
            final(self)@ == old(self)@.closed(instance_id@),
            match outcome {
                Ok(closed) => closed && old(self)@.sessions.contains_key(instance_id@),
                Err(error) => !old(self)@.sessions.contains_key(instance_id@) && error@
                    == Failure::NotFound,
            },
    {
        let ghost before = self@;
        let removed = self.sessions.remove(instance_id.as_str());
        proof {
            assert forall|other: Seq<char>| #[trigger]
                self@.sessions.dom().contains(other) implies issued_below(
                other,
                self@.next_stamp,
            ) by {
                assert(before.sessions.dom().contains(other));
            }
        }
        if removed {
            Ok(true)
        } else {
            Err(SessionError::NotFound)
        }
    }

    /// Whether `instance_id` is a live session.
    pub fn is_active(&self, instance_id: &str) -> (active: bool)
        requires
            self.wf(),
        ensures
            active == self@.sessions.contains_key(instance_id@),
    {
        self.sessions.contains(instance_id)
    }

    /// How many sessions are live.
    pub fn session_count(&self) -> (count: usize)
        requires
            self.wf(),
        ensures
            self@.sessions.dom().finite(),
            count == self@.sessions.dom().len(),
    {
        self.sessions.len()
    }
}

} // verus!
