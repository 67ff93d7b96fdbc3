//! Command dispatch, one step at a time.
//!
//! A command against a session is a short conversation with the browser.
//! This module decides how the conversation goes: which action comes next,
//! and what the caller is told at the end. A driver outside carries the
//! actions out on the connection and reports what came back as events.
//!
//! Page commands work on the first page of the session and on no other.
//! A failure ends the command at once; nothing that was done before it is
//! undone, so a page opened by a navigation that then fails stays open.
//! A command waits for each answer as long as it takes: there is no time
//! limit, and no way to call a command off.

use vstd::prelude::*;
use chromiumoxide::cdp::browser_protocol::page::{
    CaptureScreenshotFormat, CaptureScreenshotParams, Viewport,
};
use chromiumoxide::page::{ScreenshotParams, ScreenshotParamsBuilder};
use serde_json::Value;
use crate::error::{Failure, SessionError, Stage};
use crate::json::{held, json_chars, json_text};

verus! {

/// The page that every page command works on: the first.
pub const TARGET_PAGE: usize = 0;

/// The protocol's image formats. Opaque here.
#[verifier::external_type_specification]
#[verifier::external_body]
pub struct ExCaptureScreenshotFormat(CaptureScreenshotFormat);

/// The protocol's region of a page. Opaque here.
#[verifier::external_type_specification]
#[verifier::external_body]
pub struct ExViewport(Viewport);

/// The protocol's own parameters of a capture, with their fields.
#[verifier::external_type_specification]
pub struct ExCaptureScreenshotParams(CaptureScreenshotParams);

/// chromiumoxide's parameters of a capture, with their fields.
#[verifier::external_type_specification]
pub struct ExScreenshotParams(ScreenshotParams);

/// chromiumoxide's builder of the parameters of a capture. Opaque here.
#[verifier::external_type_specification]
#[verifier::external_body]
pub struct ExScreenshotParamsBuilder(ScreenshotParamsBuilder);

/// Whether a builder was asked for the whole page, if it was asked.
pub uninterp spec fn asked_full_page(builder: ScreenshotParamsBuilder) -> Option<bool>;

/// Whether a builder was asked to leave the background out, if it was
/// asked.
pub uninterp spec fn asked_omit_background(builder: ScreenshotParamsBuilder) -> Option<bool>;

/// The quality that a builder was asked for, if it was asked for one.
pub uninterp spec fn asked_quality(builder: ScreenshotParamsBuilder) -> Option<i64>;

/// Whether a builder was asked for a region of the page only.
pub uninterp spec fn asked_region(builder: ScreenshotParamsBuilder) -> bool;

/// Trusted: `ScreenshotParams::builder` of chromiumoxide returns a builder
/// in which nothing is set: it was asked neither about the whole page nor
/// about the background, and for no quality and no region.
pub assume_specification[ ScreenshotParams::builder ]() -> (builder: ScreenshotParamsBuilder)
    ensures
        asked_full_page(builder) is None,
        asked_omit_background(builder) is None,
        asked_quality(builder) is None,
        !asked_region(builder),
;

/// Trusted: `ScreenshotParamsBuilder::build` of chromiumoxide returns the
/// parameters that the builder holds.
pub assume_specification[ ScreenshotParamsBuilder::build ](builder: ScreenshotParamsBuilder) -> (params:
    ScreenshotParams)
    ensures
        params.full_page == asked_full_page(builder),
        params.omit_background == asked_omit_background(builder),
        params.cdp_params.quality == asked_quality(builder),
        (params.cdp_params.clip is Some) == asked_region(builder),
;

/// The parameters with which a page is captured: those of a builder in
/// which nothing was set, so that the browser's own defaults hold. No
/// region and no quality is asked for, nor the whole page, nor a capture
/// without background.
pub fn capture_params() -> (params: ScreenshotParams)
    ensures
        params.cdp_params.clip is None,
        params.cdp_params.quality is None,
        params.full_page is None,
        params.omit_background is None,
{
    ScreenshotParams::builder().build()
}

/// What a caller asks of a session.
#[derive(Debug, Clone, PartialEq, Eq)]
pub enum Command {
    /// Open a new page on `url` and load it.
    Navigate { url: String },
    /// Evaluate `script` and give its value as JSON text.
    ExecuteScript { script: String },
    /// Capture the page as an image and store it at `path`.
    Screenshot { path: String },
    /// Give the page's markup.
    GetContent,
}

pub enum CommandView {
    Navigate { url: Seq<char> },
    ExecuteScript { script: Seq<char> },
    Screenshot { path: Seq<char> },
    GetContent,
}

impl View for Command {
    type V = CommandView;

    open spec fn view(&self) -> CommandView {
        match self {
            Command::Navigate { url } => CommandView::Navigate { url: url@ },
            Command::ExecuteScript { script } => CommandView::ExecuteScript { script: script@ },
            Command::Screenshot { path } => CommandView::Screenshot { path: path@ },
            Command::GetContent => CommandView::GetContent,
        }
    }
}

/// What the driver is to do next on the session's connection.
#[derive(Debug, Clone, PartialEq, Eq)]
pub enum Action {
    /// Open a new page on `url`.
    OpenPage { url: String },
    /// Load `url` into the page just opened and wait until it is loaded.
    Goto { url: String },
    /// Ask the connection for its pages.
    ListPages,
    /// Evaluate `script` in the page with index `page`.
    Evaluate { page: usize, script: String },
    /// Capture the page with index `page`, with default parameters.
    Capture { page: usize },
    /// Store `bytes` in the file at `path`.
    WriteFile { path: String, bytes: Vec<u8> },
    /// Read the markup of the page with index `page`.
    ReadContent { page: usize },
}

pub enum ActionView {
    OpenPage { url: Seq<char> },
    Goto { url: Seq<char> },
    ListPages,
    Evaluate { page: usize, script: Seq<char> },
    Capture { page: usize },
    WriteFile { path: Seq<char>, bytes: Seq<u8> },
    ReadContent { page: usize },
}

impl View for Action {
    type V = ActionView;

    open spec fn view(&self) -> ActionView {
        match self {
            Action::OpenPage { url } => ActionView::OpenPage { url: url@ },
            Action::Goto { url } => ActionView::Goto { url: url@ },
            Action::ListPages => ActionView::ListPages,
            Action::Evaluate { page, script } => ActionView::Evaluate {
                page: *page,
                script: script@,
            },
            Action::Capture { page } => ActionView::Capture { page: *page },
            Action::WriteFile { path, bytes } => ActionView::WriteFile {
                path: path@,
                bytes: bytes@,
            },
            Action::ReadContent { page } => ActionView::ReadContent { page: *page },
        }
    }
}

impl ActionView {
    /// The page that the action works on, where it works on one that
    /// exists already.
    pub open spec fn page(self) -> Option<usize> {
        match self {
            ActionView::Evaluate { page, .. } => Some(page),
            ActionView::Capture { page } => Some(page),
            ActionView::ReadContent { page } => Some(page),
            _ => None,
        }
    }
}

/// What came back from the action that was carried out last.
#[derive(Debug, PartialEq, Eq)]
pub enum Event {
    /// The new page is open.
    PageOpened,
    /// The page has loaded its document.
    Navigated,
    /// The connection has `count` pages.
    Pages { count: usize },
    /// The script was evaluated; `json` is its value as JSON text, or why
    /// the value could not be written as JSON.
    Evaluated { json: Result<String, String> },
    /// The page was captured as `bytes`.
    Captured { bytes: Vec<u8> },
    /// The file is written.
    Written,
    /// The page's markup is `markup`.
    Content { markup: String },
    /// The action failed, for the reason `detail`.
    Failed { detail: String },
}

pub enum EventView {
    PageOpened,
    Navigated,
    Pages { count: usize },
    Evaluated { json: Result<Seq<char>, Seq<char>> },
    Captured { bytes: Seq<u8> },
    Written,
    Content { markup: Seq<char> },
    Failed { detail: Seq<char> },
}

impl View for Event {
    type V = EventView;

    open spec fn view(&self) -> EventView {
        match self {
            Event::PageOpened => EventView::PageOpened,
            Event::Navigated => EventView::Navigated,
            Event::Pages { count } => EventView::Pages { count: *count },
            Event::Evaluated { json } => EventView::Evaluated {
                json: match json {
                    Ok(text) => Ok(text@),
                    Err(detail) => Err(detail@),
                },
            },
            Event::Captured { bytes } => EventView::Captured { bytes: bytes@ },
            Event::Written => EventView::Written,
            Event::Content { markup } => EventView::Content { markup: markup@ },
            Event::Failed { detail } => EventView::Failed { detail: detail@ },
        }
    }
}

impl Event {
    /// The event for a script that was evaluated to `value`: it holds the
    /// JSON text of the value where the value has one, and else why the
    /// value could not be written as JSON.
    pub fn evaluated(value: Option<&Value>) -> (event: Event)
        ensures
            event@ matches EventView::Evaluated { json } && match json {
                Ok(text) => json_chars(held(value)) == Some(text),
                Err(_) => json_chars(held(value)) is None,
            },
    {
        Event::Evaluated { json: json_text(value) }
    }
}

/// What a command gives its caller when it succeeds.
#[derive(Debug, Clone, PartialEq, Eq)]
pub enum Reply {
    /// The command was carried out.
    Done(bool),
    /// The command produced this text.
    Text(String),
}

pub enum ReplyView {
    Done(bool),
    Text(Seq<char>),
}

impl View for Reply {
    type V = ReplyView;

    open spec fn view(&self) -> ReplyView {
        match self {
            Reply::Done(flag) => ReplyView::Done(*flag),
            Reply::Text(text) => ReplyView::Text(text@),
        }
    }
}

/// How a command goes on after an event.
#[derive(Debug, PartialEq, Eq)]
pub enum Step {
    /// Carry this action out and report what came back.
    Perform(Action),
    /// The command is over, with this result.
    Finish(Result<Reply, SessionError>),
}

pub enum StepView {
    Perform(ActionView),
    Finish(Result<ReplyView, Failure>),
}

impl View for Step {
    type V = StepView;

    open spec fn view(&self) -> StepView {
        match self {
            Step::Perform(action) => StepView::Perform(action@),
            Step::Finish(result) => StepView::Finish(
                match result {
                    Ok(reply) => Ok(reply@),
                    Err(error) => Err(error@),
                },
            ),
        }
    }
}

/// Where a command stands: which answer it is waiting for.
#[derive(Debug, Clone, Copy, PartialEq, Eq, Structural)]
pub enum Phase {
    OpeningPage,
    Navigating,
    ListingPages,
    Evaluating,
    Capturing,
    Writing,
    ReadingContent,
    Finished,
}

impl Phase {
    /// The outside step that a command in this phase is waiting for.
    pub open spec fn stage(self) -> Stage
        recommends
            self != Phase::Finished,
    {
        match self {
            Phase::OpeningPage => Stage::CreatePage,
            Phase::Navigating => Stage::Navigate,
            Phase::ListingPages => Stage::ListPages,
            Phase::Evaluating => Stage::Evaluate,
            Phase::Capturing => Stage::Capture,
            Phase::Writing => Stage::WriteFile,
            Phase::ReadingContent => Stage::ReadContent,
            Phase::Finished => Stage::ReadContent,
        }
    }

    /// The most events that a command in this phase can still take.
    pub open spec fn events_left(self) -> nat {
        match self {
            Phase::OpeningPage => 2,
            Phase::Navigating => 1,
            Phase::ListingPages => 3,
            Phase::Evaluating => 1,
            Phase::Capturing => 2,
            Phase::Writing => 1,
            Phase::ReadingContent => 1,
            Phase::Finished => 0,
        }
    }
}

/// A command under way: the command and its phase.
pub struct RunView {
    pub command: CommandView,
    pub phase: Phase,
}

impl RunView {
    /// The phase is one that the command goes through.
    pub open spec fn wf(self) -> bool {
        match self.command {
            CommandView::Navigate { .. } => self.phase == Phase::OpeningPage || self.phase
                == Phase::Navigating || self.phase == Phase::Finished,
            CommandView::ExecuteScript { .. } => self.phase == Phase::ListingPages || self.phase
                == Phase::Evaluating || self.phase == Phase::Finished,
            CommandView::Screenshot { .. } => self.phase == Phase::ListingPages || self.phase
                == Phase::Capturing || self.phase == Phase::Writing || self.phase
                == Phase::Finished,
            CommandView::GetContent => self.phase == Phase::ListingPages || self.phase
                == Phase::ReadingContent || self.phase == Phase::Finished,
        }
    }

    /// The state in which `command` starts.
    pub open spec fn initial(command: CommandView) -> RunView {
        RunView {
            command,
            phase: match command {
                CommandView::Navigate { .. } => Phase::OpeningPage,
                _ => Phase::ListingPages,
            },
        }
    }

    /// The action that a command starts with: a navigation opens a page,
    /// every other command asks for the pages.
    pub open spec fn first_action(command: CommandView) -> ActionView {
        match command {
            CommandView::Navigate { url } => ActionView::OpenPage { url },
            _ => ActionView::ListPages,
        }
    }

    /// Whether `event` is an answer to the action that the command is
    /// waiting on. A failure answers every action.
    pub open spec fn answers(self, event: EventView) -> bool {
        self.phase != Phase::Finished && match event {
            EventView::Failed { .. } => true,
            EventView::PageOpened => self.phase == Phase::OpeningPage,
            EventView::Navigated => self.phase == Phase::Navigating,
            EventView::Pages { .. } => self.phase == Phase::ListingPages,
            EventView::Evaluated { .. } => self.phase == Phase::Evaluating,
            EventView::Captured { .. } => self.phase == Phase::Capturing,
            EventView::Written => self.phase == Phase::Writing,
            EventView::Content { .. } => self.phase == Phase::ReadingContent,
        }
    }

    /// What the command does on the pages once it knows that there is one.
    pub open spec fn page_action(self) -> ActionView {
        match self.command {
            CommandView::ExecuteScript { script } => ActionView::Evaluate {
                page: TARGET_PAGE,
                script,
            },
            CommandView::Screenshot { .. } => ActionView::Capture { page: TARGET_PAGE },
            _ => ActionView::ReadContent { page: TARGET_PAGE },
        }
    }

    /// The phase in which the command waits for `page_action`.
    pub open spec fn page_phase(self) -> Phase {
        match self.command {
            CommandView::ExecuteScript { .. } => Phase::Evaluating,
            CommandView::Screenshot { .. } => Phase::Capturing,
            _ => Phase::ReadingContent,
        }
    }

    /// The text that names the command's target: the address, the script or
    /// the file's path.
    pub open spec fn argument(self) -> Seq<char> {
        match self.command {
            CommandView::Navigate { url } => url,
            CommandView::ExecuteScript { script } => script,
            CommandView::Screenshot { path } => path,
            CommandView::GetContent => Seq::empty(),
        }
    }

    /// How the command goes on after `event`.
    pub open spec fn step(self, event: EventView) -> StepView
        recommends
            self.wf(),
            self.answers(event),
    {
        match event {
            EventView::Failed { detail } => StepView::Finish(
                Err(self.phase.stage().failure(detail)),
            ),
            EventView::PageOpened => StepView::Perform(ActionView::Goto { url: self.argument() }),
            EventView::Navigated => StepView::Finish(Ok(ReplyView::Done(true))),
            EventView::Pages { count } => if count == 0 {
                StepView::Finish(Err(Failure::NoActivePage))
            } else {
                StepView::Perform(self.page_action())
            },
            EventView::Evaluated { json } => match json {
                Ok(text) => StepView::Finish(Ok(ReplyView::Text(text))),
                Err(detail) => StepView::Finish(Err(Stage::Serialize.failure(detail))),
            },
            EventView::Captured { bytes } => StepView::Perform(
                ActionView::WriteFile { path: self.argument(), bytes },
            ),
            EventView::Written => StepView::Finish(Ok(ReplyView::Text(self.argument()))),
            EventView::Content { markup } => StepView::Finish(Ok(ReplyView::Text(markup))),
        }
    }

    /// The phase that the command is in after `event`.
    pub open spec fn next_phase(self, event: EventView) -> Phase
        recommends
            self.wf(),
            self.answers(event),
    {
        match event {
            EventView::PageOpened => Phase::Navigating,
            EventView::Pages { count } => if count == 0 {
                Phase::Finished
            } else {
                self.page_phase()
            },
            EventView::Captured { .. } => Phase::Writing,
            _ => Phase::Finished,
        }
    }

    /// The command after `event`.
    pub open spec fn after(self, event: EventView) -> RunView {
        RunView { command: self.command, phase: self.next_phase(event) }
    }
}

/// Every answer brings a command nearer to its end: no command takes more
/// than three events, and it stays one of the phases of its command.
pub proof fn lemma_command_ends(run: RunView, event: EventView)
    requires
        run.wf(),
        run.answers(event),
    ensures
        run.after(event).wf(),
        run.after(event).phase.events_left() < run.phase.events_left(),
        run.phase.events_left() <= 3,
        run.step(event) is Finish <==> run.after(event).phase == Phase::Finished,
{
}

/// A failure ends the command at once, with the failure of the step that
/// was pending: no further action is asked for, so nothing is undone.
pub proof fn lemma_failure_ends_command(run: RunView, detail: Seq<char>)
    requires
        run.wf(),
        run.phase != Phase::Finished,
    ensures
        run.answers(EventView::Failed { detail }),
        run.step(EventView::Failed { detail }) == StepView::Finish(
            Err(run.phase.stage().failure(detail)),
        ),
        run.after(EventView::Failed { detail }).phase == Phase::Finished,
{
}

/// An action on a page is always on the first page, and is asked for only
/// after the session was seen to have a page.
pub proof fn lemma_first_page_only(run: RunView, event: EventView)
    requires
        run.wf(),
        run.answers(event),
        run.step(event) matches StepView::Perform(action) && action.page() is Some,
    ensures
        run.step(event) matches StepView::Perform(action) && action.page() == Some(TARGET_PAGE),
        event matches EventView::Pages { count } && count > 0,
{
}

/// A command that asks for the pages of a session without pages fails
/// with `NoActivePage`, and only then does a command fail so.
pub proof fn lemma_no_page_no_work(run: RunView, event: EventView)
    requires
        run.wf(),
        run.answers(event),
    ensures
        run.step(event) == StepView::Finish(Err(Failure::NoActivePage)) <==> event
            == (EventView::Pages { count: 0 }),
{
}

/// A screenshot stores exactly the bytes that were captured, at the path
/// that the caller gave, and gives that path back once they are stored.
pub proof fn lemma_screenshot_stores_capture(path: Seq<char>, bytes: Seq<u8>, pages: usize)
    requires
        pages > 0,
    ensures
        ({
            let listing = RunView::initial(CommandView::Screenshot { path });
            let capturing = listing.after(EventView::Pages { count: pages });
            let writing = capturing.after(EventView::Captured { bytes });
            &&& RunView::first_action(CommandView::Screenshot { path }) == ActionView::ListPages
            &&& listing.step(EventView::Pages { count: pages }) == StepView::Perform(
                ActionView::Capture { page: TARGET_PAGE },
            )
            &&& capturing.step(EventView::Captured { bytes }) == StepView::Perform(
                ActionView::WriteFile { path, bytes },
            )
            &&& writing.step(EventView::Written) == StepView::Finish(Ok(ReplyView::Text(path)))
        }),
{
}

/// A navigation opens a page on the address, loads the address into it
/// and ends with `true`.
pub proof fn lemma_navigation_steps(url: Seq<char>)
    ensures
        ({
            let opening = RunView::initial(CommandView::Navigate { url });
            let loading = opening.after(EventView::PageOpened);
            &&& RunView::first_action(CommandView::Navigate { url }) == (ActionView::OpenPage {
                url,
            })
            &&& opening.step(EventView::PageOpened) == StepView::Perform(ActionView::Goto { url })
            &&& loading.step(EventView::Navigated) == StepView::Finish(Ok(ReplyView::Done(true)))
        }),
{
}

/// A command under way.
#[derive(Debug, Clone, PartialEq, Eq)]
pub struct CommandRun {
    command: Command,
    phase: Phase,
}

impl View for CommandRun {
    type V = RunView;

    closed spec fn view(&self) -> RunView {
        RunView { command: self.command@, phase: self.phase }
    }
}

impl CommandRun {
    /// Starts `command`: gives the run and the action that it begins with.
    pub fn begin(command: Command) -> (started: (CommandRun, Action))
        ensures
            started.0@ == RunView::initial(command@),
            started.0@.wf(),
            started.1@ == RunView::first_action(command@),
    {
        let (phase, action) = match &command {
            Command::Navigate { url } => (Phase::OpeningPage, Action::OpenPage { url: url.clone() }),
            _ => (Phase::ListingPages, Action::ListPages),
        };
        (CommandRun { command, phase }, action)
    }

    /// Whether the command is over.
    pub fn is_finished(&self) -> (finished: bool)
        ensures
            finished == (self@.phase == Phase::Finished),
    {
        match self.phase {
            Phase::Finished => true,
            _ => false,
        }
    }

    /// Whether `event` is an answer to the action that the command is
    /// waiting on.
    pub fn expects(&self, event: &Event) -> (expected: bool)
        ensures
            expected == self@.answers(event@),
    {
        match self.phase {
            Phase::Finished => false,
            Phase::OpeningPage => match event {
                Event::Failed { .. } | Event::PageOpened => true,
                _ => false,
            },
            Phase::Navigating => match event {
                Event::Failed { .. } | Event::Navigated => true,
                _ => false,
            },
            Phase::ListingPages => match event {
                Event::Failed { .. } | Event::Pages { .. } => true,
                _ => false,
            },
            Phase::Evaluating => match event {
                Event::Failed { .. } | Event::Evaluated { .. } => true,
                _ => false,
            },
            Phase::Capturing => match event {
                Event::Failed { .. } | Event::Captured { .. } => true,
                _ => false,
            },
            Phase::Writing => match event {
                Event::Failed { .. } | Event::Written => true,
                _ => false,
            },
            Phase::ReadingContent => match event {
                Event::Failed { .. } | Event::Content { .. } => true,
                _ => false,
            },
        }
    }

    /// The text that names the command's target.
    fn argument(&self) -> (text: String)
        ensures
            text@ == self@.argument(),
    {
        match &self.command {
            Command::Navigate { url } => url.clone(),
            Command::ExecuteScript { script } => script.clone(),
            Command::Screenshot { path } => path.clone(),
            Command::GetContent => String::new(),
        }
    }

    /// What the command does on the pages once it knows that there is one.
    fn page_step(&mut self) -> (action: Action)
        requires
            old(self)@.wf(),
            old(self)@.phase == Phase::ListingPages,
        ensures
            final(self)@.command == old(self)@.command,
            final(self)@.phase == old(self)@.page_phase(),
            final(self)@.wf(),
            action@ == old(self)@.page_action(),
    {
        match &self.command {
            Command::ExecuteScript { script } => {
                let action = Action::Evaluate { page: TARGET_PAGE, script: script.clone() };
                self.phase = Phase::Evaluating;
                action
            },
            Command::Screenshot { .. } => {
                self.phase = Phase::Capturing;
                Action::Capture { page: TARGET_PAGE }
            },
            _ => {
                self.phase = Phase::ReadingContent;
                Action::ReadContent { page: TARGET_PAGE }
            },
        }
    }

    /// Takes the answer to the pending action and says how the command
    /// goes on.
    pub fn advance(&mut self, event: Event) -> (step: Step)
        requires
            old(self)@.wf(),
            old(self)@.answers(event@),
        ensures
            final(self)@ == old(self)@.after(event@),
            final(self)@.wf(),
            step@ == old(self)@.step(event@),
    {
        match event {
            Event::Failed { detail } => {
                let stage = match self.phase {
                    Phase::OpeningPage => Stage::CreatePage,
                    Phase::Navigating => Stage::Navigate,
                    Phase::ListingPages => Stage::ListPages,
                    Phase::Evaluating => Stage::Evaluate,
                    Phase::Capturing => Stage::Capture,
                    Phase::Writing => Stage::WriteFile,
                    _ => Stage::ReadContent,
                };
                self.phase = Phase::Finished;
                Step::Finish(Err(stage.failed(detail.as_str())))
            },
            Event::PageOpened => {
                self.phase = Phase::Navigating;
                Step::Perform(Action::Goto { url: self.argument() })
            },
            Event::Navigated => {
                self.phase = Phase::Finished;
                Step::Finish(Ok(Reply::Done(true)))
            },
            Event::Pages { count } => {
                if count == 0 {
                    self.phase = Phase::Finished;
                    Step::Finish(Err(SessionError::NoActivePage))
                } else {
                    Step::Perform(self.page_step())
                }
            },
            Event::Evaluated { json } => {
                self.phase = Phase::Finished;
                match json {
                    Ok(text) => Step::Finish(Ok(Reply::Text(text))),
                    Err(detail) => Step::Finish(Err(Stage::Serialize.failed(detail.as_str()))),
                }
            },
            Event::Captured { bytes } => {
                self.phase = Phase::Writing;
                Step::Perform(Action::WriteFile { path: self.argument(), bytes })
            },
            Event::Written => {
                self.phase = Phase::Finished;
                Step::Finish(Ok(Reply::Text(self.argument())))
            },
            Event::Content { markup } => {
                self.phase = Phase::Finished;
                Step::Finish(Ok(Reply::Text(markup)))
            },
        }
    }

    /// Takes `event` if it answers the pending action, and says how the
    /// command goes on. Any other event is passed over: the command stays
    /// as it is and nothing is said.
    pub fn offer(&mut self, event: Event) -> (step: Option<Step>)
        requires
            old(self)@.wf(),
        ensures
            final(self)@.wf(),
            match step {
                Some(next) => old(self)@.answers(event@) && final(self)@ == old(self)@.after(
                    event@,
                ) && next@ == old(self)@.step(event@),
                None => !old(self)@.answers(event@) && final(self)@ == old(self)@,
            },
    {
        if self.expects(&event) {
            Some(self.advance(event))
        } else {
            None
        }
    }
}

} // verus!
