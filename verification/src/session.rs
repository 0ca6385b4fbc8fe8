//! The application as one state machine over four screens.
//!
//! On the main screen the expression and the domain are typed; Enter in the
//! domain field starts an evaluation, which ends on the success screen or
//! on the failure screen. From anywhere the user can ask to leave, and is
//! then asked to confirm.
//!
//! The machine never evaluates the expression itself. While a run needs a
//! value it answers every event with [`Action::Evaluate`], and the caller
//! is to compute the value and hand it in as [`Event::Value`]. Keys that
//! arrive in between are dropped, so that one key is dealt with in full
//! before the next.

use vstd::prelude::*;
use crate::components::domain::Domain;
use crate::components::expr::ExprField;
use crate::components::focus::{toggled, CurrentInput, CurrentScreen, Focus};
use crate::components::graph::{
    lemma_eval_keeps_dataset_sound, lemma_supply_keeps_dataset_sound, Graph, Progress,
};
use crate::error::PipelineError;
use crate::key::Key;
use crate::text::without_last;

verus! {

/// What the user asks for, whatever key it was bound to.
#[derive(Clone, Copy, Debug, PartialEq, Eq, Structural)]
pub enum Command {
    /// Start typing, in the expression field.
    BeginEditing,
    /// Append a character to the field in focus.
    Insert(char),
    /// Delete the last character of the field in focus.
    DeleteLast,
    /// Go to the other field.
    NextField,
    /// Finish the field in focus.
    Submit,
    /// Stop typing.
    Leave,
    /// Ask to leave the program.
    Quit,
    /// Leave the program indeed.
    Confirm,
    /// Stay after all.
    Cancel,
    /// Clear everything and start over.
    Reset,
    /// Nothing.
    Ignore,
}

/// What can happen to the machine.
#[derive(Clone, Copy, Debug, PartialEq, Eq, Structural)]
pub enum Event {
    /// A key was pressed.
    Key(Key),
    /// The value that was asked for, as a bit pattern.
    Value(u64),
}

/// What the caller is to do next.
#[derive(Clone, Copy, Debug, PartialEq, Eq, Structural)]
pub enum Action {
    /// Wait for the next key.
    Await,
    /// Compute the value of the expression at this integer and hand it in.
    Evaluate(i64),
    /// End the program.
    Terminate,
}

/// The command that `key` stands for while `focus` holds.
///
/// While a field is edited every character is text. Otherwise `e` starts
/// editing and `q` asks to leave; after an evaluation `r` resets; and the
/// question whether to leave is answered with `y` or `n`.
pub open spec fn command_of(focus: Focus, key: Key) -> Command {
    match focus.current_screen {
        CurrentScreen::Main => match key {
            Key::Char(c) => if focus.current_input is Some {
                Command::Insert(c)
            } else if c == 'e' {
                Command::BeginEditing
            } else if c == 'q' {
                Command::Quit
            } else {
                Command::Ignore
            },
            Key::Backspace => Command::DeleteLast,
            Key::Tab => Command::NextField,
            Key::Enter => Command::Submit,
            Key::Esc => Command::Leave,
            Key::Other => Command::Ignore,
        },
        CurrentScreen::Success | CurrentScreen::Failure => if key == Key::Char('q') {
            Command::Quit
        } else if key == Key::Char('r') {
            Command::Reset
        } else {
            Command::Ignore
        },
        CurrentScreen::Exiting => if key == Key::Char('y') {
            Command::Confirm
        } else if key == Key::Char('n') {
            Command::Cancel
        } else {
            Command::Ignore
        },
    }
}

/// The command that `key` stands for while `focus` holds.
pub fn command(focus: Focus, key: Key) -> (c: Command)
    ensures
        c == command_of(focus, key),
{
    match focus.current_screen {
        CurrentScreen::Main => match key {
            Key::Char(c) => {
                if focus.current_input.is_some() {
                    Command::Insert(c)
                } else if c == 'e' {
                    Command::BeginEditing
                } else if c == 'q' {
                    Command::Quit
                } else {
                    Command::Ignore
                }
            },
            Key::Backspace => Command::DeleteLast,
            Key::Tab => Command::NextField,
            Key::Enter => Command::Submit,
            Key::Esc => Command::Leave,
            Key::Other => Command::Ignore,
        },
        CurrentScreen::Success | CurrentScreen::Failure => match key {
            Key::Char('q') => Command::Quit,
            Key::Char('r') => Command::Reset,
            _ => Command::Ignore,
        },
        CurrentScreen::Exiting => match key {
            Key::Char('y') => Command::Confirm,
            Key::Char('n') => Command::Cancel,
            _ => Command::Ignore,
        },
    }
}

/// The focus after `command`, for the commands that move nothing else.
///
/// On the main screen: editing begins in the expression field; the next of
/// the two fields comes into focus; Submit leads from the expression to
/// the domain; Leave ends editing. Quit leads from the main, the success
/// and the failure screen to the question whether to leave, and Cancel
/// leads from there to the main screen with no field edited.
pub open spec fn refocused(focus: Focus, command: Command) -> Focus {
    match focus.current_screen {
        CurrentScreen::Main => match command {
            Command::BeginEditing => if focus.current_input is None {
                Focus { current_input: Some(CurrentInput::Expression), ..focus }
            } else {
                focus
            },
            Command::NextField => Focus { current_input: toggled(focus.current_input), ..focus },
            Command::Submit => if focus.current_input == Some(CurrentInput::Expression) {
                Focus { current_input: Some(CurrentInput::Xdomain), ..focus }
            } else {
                focus
            },
            Command::Leave => Focus { current_input: None, ..focus },
            Command::Quit => Focus { current_screen: CurrentScreen::Exiting, ..focus },
            _ => focus,
        },
        CurrentScreen::Success | CurrentScreen::Failure => match command {
            Command::Quit => Focus { current_screen: CurrentScreen::Exiting, ..focus },
            _ => focus,
        },
        CurrentScreen::Exiting => match command {
            Command::Cancel => Focus::initial(),
            _ => focus,
        },
    }
}

/// The text of the field `field` after `command`: text is edited on the
/// main screen, in the field in focus, and nowhere else.
pub open spec fn retyped(focus: Focus, field: CurrentInput, command: Command, text: Seq<char>) -> Seq<
    char,
> {
    if focus.current_screen == CurrentScreen::Main && focus.current_input == Some(field) {
        match command {
            Command::Insert(c) => text.push(c),
            Command::DeleteLast => without_last(text),
            _ => text,
        }
    } else {
        text
    }
}

/// The machine: the focus, both texts, the graph, and the error of the
/// last evaluation if it failed.
pub struct Session {
    pub focus: Focus,
    pub expr: ExprField,
    pub domain: Domain,
    pub graph: Graph,
    /// Why the last evaluation failed; `None` if it did not.
    pub failure: Option<PipelineError>,
    /// Whether Cancel, on the question whether to leave, also clears the
    /// texts and the graph.
    pub cancel_clears: bool,
}

impl Session {
    /// The integer at which a run wants a value.
    pub open spec fn awaited(&self) -> Option<i64> {
        match self.graph.pending {
            Some(run) => run.sampler.wanted(),
            None => None,
        }
    }

    /// The state at startup and after a reset: main screen, no field
    /// edited, both texts empty, the graph as new, no failure on record.
    pub open spec fn is_cleared(&self) -> bool {
        &&& self.focus == Focus::initial()
        &&& self.expr.expr_text@ == Seq::<char>::empty()
        &&& self.domain.domain_text@ == Seq::<char>::empty()
        &&& self.graph.is_default()
        &&& self.failure is None
    }

    /// Whether `command` starts an evaluation: Submit in the domain field.
    pub open spec fn triggers(&self, command: Command) -> bool {
        &&& self.focus.current_screen == CurrentScreen::Main
        &&& self.focus.current_input == Some(CurrentInput::Xdomain)
        &&& command == Command::Submit
    }

    /// Whether `command` clears everything: Reset after an evaluation, and
    /// Cancel where the machine was made to clear on it.
    pub open spec fn clears(&self, command: Command) -> bool {
        ||| {
            &&& self.focus.current_screen == CurrentScreen::Success || self.focus.current_screen
                == CurrentScreen::Failure
            &&& command == Command::Reset
        }
        ||| {
            &&& self.focus.current_screen == CurrentScreen::Exiting
            &&& command == Command::Cancel
            &&& self.cancel_clears
        }
    }

    /// Where the machine stands once the graph has answered with `r`.
    ///
    /// While values are wanted the screen stays and the first is asked
    /// for. A complete dataset leads to the success screen. An error
    /// leads to the failure screen and is kept on record.
    pub open spec fn settled(
        before: Session,
        r: Result<Progress, PipelineError>,
        after: Session,
        action: Action,
    ) -> bool {
        &&& after.expr == before.expr
        &&& after.domain == before.domain
        &&& after.cancel_clears == before.cancel_clears
        &&& match r {
            Ok(Progress::Wanted(x)) => {
                &&& after.focus == before.focus
                &&& after.failure == before.failure
                &&& action == Action::Evaluate(x)
            },
            Ok(Progress::Done) => {
                &&& after.focus == Focus {
                    current_screen: CurrentScreen::Success,
                    current_input: None,
                }
                &&& after.failure is None
                &&& action == Action::Await
            },
            Err(e) => {
                &&& after.focus == Focus {
                    current_screen: CurrentScreen::Failure,
                    current_input: None,
                }
                &&& after.failure == Some(e)
                &&& action == Action::Await
            },
        }
    }

    /// What `command` does to the machine `before`.
    ///
    /// While a run wants a value the command is dropped and the value is
    /// asked for again. Submit in the domain field evaluates the
    /// expression text over the domain text. A command that clears leaves
    /// the machine as at startup. Any other command moves the focus or
    /// edits a text, and Confirm, on the question whether to leave, ends
    /// the program.
    pub open spec fn applied(before: Session, command: Command, after: Session, action: Action) -> bool {
        if before.awaited() is Some {
            after == before && action == Action::Evaluate(before.awaited()->0)
        } else if before.triggers(command) {
            let r = Graph::eval_result(before.expr.expr_text@, before.domain.domain_text@);
            &&& Graph::eval_outcome(
                before.graph,
                before.expr.expr_text@,
                before.domain.domain_text@,
                after.graph,
                r,
            )
            &&& Session::settled(before, r, after, action)
        } else if before.clears(command) {
            &&& after.is_cleared()
            &&& after.cancel_clears == before.cancel_clears
            &&& action == Action::Await
        } else {
            &&& after.focus == refocused(before.focus, command)
            &&& after.expr.expr_text@ == retyped(
                before.focus,
                CurrentInput::Expression,
                command,
                before.expr.expr_text@,
            )
            &&& after.domain.domain_text@ == retyped(
                before.focus,
                CurrentInput::Xdomain,
                command,
                before.domain.domain_text@,
            )
            &&& after.graph == before.graph
            &&& after.failure == before.failure
            &&& after.cancel_clears == before.cancel_clears
            &&& action == if before.focus.current_screen == CurrentScreen::Exiting && command
                == Command::Confirm {
                Action::Terminate
            } else {
                Action::Await
            }
        }
    }

    /// What the value `y` does to the machine `before`: it goes to the run
    /// that wants it, and is dropped if there is none.
    pub open spec fn sampled(before: Session, y: u64, after: Session, action: Action) -> bool {
        if before.awaited() is None {
            after == before && action == Action::Await
        } else {
            let r = Graph::supply_result(before.graph, y);
            &&& Graph::supply_outcome(before.graph, y, after.graph, r)
            &&& Session::settled(before, r, after, action)
        }
    }

    /// The machine at startup. `cancel_clears` says whether Cancel, on the
    /// question whether to leave, also clears the texts and the graph.
    pub fn new(cancel_clears: bool) -> (session: Session)
        ensures
            session.is_cleared(),
            session.cancel_clears == cancel_clears,
    {
        Session {
            focus: Focus::new(),
            expr: ExprField::new(),
            domain: Domain::new(),
            graph: Graph::new(),
            failure: None,
            cancel_clears,
        }
    }

    /// Returns to the state at startup, whatever the state was.
    pub fn reset(&mut self)
        ensures
            final(self).is_cleared(),
            final(self).cancel_clears == old(self).cancel_clears,
    {
        self.focus.reset();
        self.expr.reset();
        self.domain.reset();
        self.graph.reset();
        self.failure = None;
    }

    /// Moves to the screen that the graph's answer `r` calls for.
    fn settle(&mut self, r: Result<Progress, PipelineError>) -> (action: Action)
        ensures
            Session::settled(*old(self), r, *final(self), action),
            final(self).graph == old(self).graph,
    {
        match r {
            Ok(Progress::Wanted(x)) => Action::Evaluate(x),
            Ok(Progress::Done) => {
                self.focus = Focus { current_screen: CurrentScreen::Success, current_input: None };
                self.failure = None;
                Action::Await
            },
            Err(e) => {
                self.focus = Focus { current_screen: CurrentScreen::Failure, current_input: None };
                self.failure = Some(e);
                Action::Await
            },
        }
    }

    /// Edits the field in focus with `key`.
    fn edit(&mut self, key: Key)
        ensures
            final(self).focus == old(self).focus,
            final(self).graph == old(self).graph,
            final(self).failure == old(self).failure,
            final(self).cancel_clears == old(self).cancel_clears,
            final(self).expr.expr_text@ == if old(self).focus.current_input == Some(
                CurrentInput::Expression,
            ) {
                ExprField::typed(old(self).expr.expr_text@, key)
            } else {
                old(self).expr.expr_text@
            },
            final(self).domain.domain_text@ == if old(self).focus.current_input == Some(
                CurrentInput::Xdomain,
            ) {
                Domain::typed(old(self).domain.domain_text@, key)
            } else {
                old(self).domain.domain_text@
            },
    {
        match self.focus.current_input {
            Some(CurrentInput::Expression) => {
                self.expr.event(key);
            },
            Some(CurrentInput::Xdomain) => {
                self.domain.event(key);
            },
            None => {},
        }
    }

    /// Carries out `command`.
    pub fn apply(&mut self, command: Command) -> (action: Action)
        ensures
            Session::applied(*old(self), command, *final(self), action),
    {
        match self.graph.wanted() {
            Some(x) => {
                return Action::Evaluate(x);
            },
            None => {},
        }
        match self.focus.current_screen {
            CurrentScreen::Main => match command {
                Command::BeginEditing => {
                    if self.focus.current_input.is_none() {
                        self.focus.current_input = Some(CurrentInput::Expression);
                    }
                    Action::Await
                },
                Command::Insert(c) => {
                    self.edit(Key::Char(c));
                    Action::Await
                },
                Command::DeleteLast => {
                    self.edit(Key::Backspace);
                    Action::Await
                },
                Command::NextField => {
                    self.focus.toggle_input();
                    Action::Await
                },
                Command::Submit => match self.focus.current_input {
                    None => Action::Await,
                    Some(CurrentInput::Expression) => {
                        self.focus.current_input = Some(CurrentInput::Xdomain);
                        Action::Await
                    },
                    Some(CurrentInput::Xdomain) => {
                        let r = self.graph.eval_expr(&self.expr.expr_text, &self.domain.domain_text);
                        self.settle(r)
                    },
                },
                Command::Leave => {
                    self.focus.current_input = None;
                    Action::Await
                },
                Command::Quit => {
                    self.focus.current_screen = CurrentScreen::Exiting;
                    Action::Await
                },
                _ => Action::Await,
            },
            CurrentScreen::Success | CurrentScreen::Failure => match command {
                Command::Reset => {
                    self.reset();
                    Action::Await
                },
                Command::Quit => {
                    self.focus.current_screen = CurrentScreen::Exiting;
                    Action::Await
                },
                _ => Action::Await,
            },
            CurrentScreen::Exiting => match command {
                Command::Confirm => Action::Terminate,
                Command::Cancel => {
                    if self.cancel_clears {
                        self.reset();
                    } else {
                        self.focus.reset();
                    }
                    Action::Await
                },
                _ => Action::Await,
            },
        }
    }

    /// Takes the value `y` for the run that wants one.
    pub fn sample(&mut self, y: u64) -> (action: Action)
        ensures
            Session::sampled(*old(self), y, *final(self), action),
    {
        match self.graph.wanted() {
            None => Action::Await,
            Some(_) => {
                let r = self.graph.supply(y);
                self.settle(r)
            },
        }
    }

    /// The transition function: what `event` does to the machine, and what
    /// the caller is to do next. A key is read as the command that it
    /// stands for under the focus of the moment.
    pub fn handle(&mut self, event: Event) -> (action: Action)
        ensures
            match event {
                Event::Key(key) => Session::applied(
                    *old(self),
                    command_of(old(self).focus, key),
                    *final(self),
                    action,
                ),
                Event::Value(y) => Session::sampled(*old(self), y, *final(self), action),
            },
    {
        match event {
            Event::Key(key) => {
                let c = command(self.focus, key);
                self.apply(c)
            },
            Event::Value(y) => self.sample(y),
        }
    }
}

/// Reset clears: after an evaluation, whatever it left behind, Reset leads
/// to the main screen with no field edited, empty texts and a graph as new.
pub proof fn lemma_reset_clears(before: Session, after: Session, action: Action)
    requires
        before.focus.current_screen == CurrentScreen::Success || before.focus.current_screen
            == CurrentScreen::Failure,
        before.awaited() is None,
        Session::applied(before, Command::Reset, after, action),
    ensures
        after.focus == Focus::initial(),
        after.graph.is_default(),
        after.is_cleared(),
        action == Action::Await,
{
}

/// The failure screen is left by Reset or by Quit and in no other way.
pub proof fn lemma_failure_is_left_by_reset_or_quit(
    before: Session,
    command: Command,
    after: Session,
    action: Action,
)
    requires
        before.focus.current_screen == CurrentScreen::Failure,
        Session::applied(before, command, after, action),
        after.focus.current_screen != CurrentScreen::Failure,
    ensures
        command == Command::Reset || command == Command::Quit,
        command == Command::Reset ==> after.focus == Focus::initial(),
        command == Command::Quit ==> after.focus.current_screen == CurrentScreen::Exiting,
{
}

/// Nothing but Confirm, on the question whether to leave, ends the
/// program: no key elsewhere and no value does, whatever the evaluation
/// made of it.
pub proof fn lemma_only_confirm_terminates(
    before: Session,
    command: Command,
    after: Session,
    action: Action,
)
    requires
        Session::applied(before, command, after, action),
        action == Action::Terminate,
    ensures
        before.focus.current_screen == CurrentScreen::Exiting,
        command == Command::Confirm,
        after.focus == before.focus,
        after.graph == before.graph,
{
}

/// A value never ends the program.
pub proof fn lemma_values_do_not_terminate(before: Session, y: u64, after: Session, action: Action)
    requires
        Session::sampled(before, y, after, action),
    ensures
        action != Action::Terminate,
{
}

/// A failed evaluation leaves the dataset as it was and shows the failure
/// screen, with the error on record.
pub proof fn lemma_failure_keeps_dataset(
    before: Session,
    command: Command,
    after: Session,
    action: Action,
)
    requires
        before.awaited() is None,
        before.triggers(command),
        Session::applied(before, command, after, action),
        after.focus.current_screen == CurrentScreen::Failure,
    ensures
        after.graph.same_dataset(&before.graph),
        after.graph.pending is None,
        after.failure is Some,
        action == Action::Await,
{
}

/// No command breaks the dataset: if it was sound before, it is sound
/// after, whether an evaluation ran, failed, or did not start at all.
pub proof fn lemma_commands_keep_dataset_sound(
    before: Session,
    command: Command,
    after: Session,
    action: Action,
)
    requires
        before.graph.is_sound(),
        Session::applied(before, command, after, action),
    ensures
        after.graph.is_sound(),
{
    if before.awaited() is None && before.triggers(command) {
        let r = Graph::eval_result(before.expr.expr_text@, before.domain.domain_text@);
        lemma_eval_keeps_dataset_sound(
            before.graph,
            before.expr.expr_text@,
            before.domain.domain_text@,
            after.graph,
            r,
        );
    }
}

/// No value breaks the dataset: if it was sound before, it is sound
/// after, whether the value was finite or not, wanted or not.
pub proof fn lemma_values_keep_dataset_sound(before: Session, y: u64, after: Session, action: Action)
    requires
        before.graph.is_sound(),
        Session::sampled(before, y, after, action),
    ensures
        after.graph.is_sound(),
{
    if before.awaited() is Some {
        let r = Graph::supply_result(before.graph, y);
        lemma_supply_keeps_dataset_sound(before.graph, y, after.graph, r);
    }
}

} // verus!
