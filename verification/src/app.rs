//! The application as a round of pages: welcome, expression, domain, graph.
//!
//! Tab moves to the next page, and from the graph page back to the start
//! with everything cleared. Enter finishes a field: from the expression it
//! leads to the domain, and from the domain to the graph page, where the
//! expression is evaluated at once. Escape leaves a field for the welcome
//! page and keeps what was typed. On the welcome page and on the graph
//! page the character `q` asks to leave; the program ends only when that
//! is confirmed with `y`, and `n` returns to the welcome page.

use vstd::prelude::*;
use crate::components::domain::Domain;
use crate::components::expr::ExprField;
use crate::components::graph::{lemma_eval_keeps_dataset_sound, Graph};
use crate::components::help::{help_of, Help};
use crate::components::home::{greeting, Home};
use crate::components::title::{title_of, Title};
use crate::key::Key;

verus! {

/// The page that is shown and that takes the keys.
#[derive(Clone, Copy, Debug, PartialEq, Eq, Structural)]
pub enum Focus {
    Home,
    Expr,
    Domain,
    Graph,
    /// The question whether to leave.
    Exiting,
}

/// Whether the program goes on after a key.
#[derive(Clone, Copy, Debug, PartialEq, Eq, Structural)]
pub enum Flow {
    Continue,
    Quit,
}

/// The page that `key` leads to from the page `focus`.
///
/// From the welcome page Tab leads to the expression and `q` to the
/// question whether to leave. From the expression Tab and Enter lead to
/// the domain; from the domain they lead to the graph. Escape leads from
/// either field back to the welcome page. From the graph page Tab leads
/// to the welcome page and `q` to the question, which `n` answers by
/// returning to the welcome page. Any other key stays on the page.
pub open spec fn next_page(focus: Focus, key: Key) -> Focus {
    match focus {
        Focus::Home => if key == Key::Tab {
            Focus::Expr
        } else if key == Key::Char('q') {
            Focus::Exiting
        } else {
            Focus::Home
        },
        Focus::Expr => if key == Key::Tab || key == Key::Enter {
            Focus::Domain
        } else if key == Key::Esc {
            Focus::Home
        } else {
            Focus::Expr
        },
        Focus::Domain => if key == Key::Tab || key == Key::Enter {
            Focus::Graph
        } else if key == Key::Esc {
            Focus::Home
        } else {
            Focus::Domain
        },
        Focus::Graph => if key == Key::Tab {
            Focus::Home
        } else if key == Key::Char('q') {
            Focus::Exiting
        } else {
            Focus::Graph
        },
        Focus::Exiting => if key == Key::Char('n') {
            Focus::Home
        } else {
            Focus::Exiting
        },
    }
}

/// The pages and what they hold.
pub struct App {
    pub focus: Focus,
    pub title: Title,
    pub help: Help,
    pub home: Home,
    pub expr: ExprField,
    pub domain: Domain,
    pub graph: Graph,
}

impl App {
    /// The state at startup and after a reset: the welcome page in focus,
    /// both fields and both captions empty, the graph as new.
    pub open spec fn is_initial(&self) -> bool {
        &&& self.focus == Focus::Home
        &&& self.title.title_text@ == Seq::<char>::empty()
        &&& self.help.help_text@ == Seq::<char>::empty()
        &&& self.expr.expr_text@ == Seq::<char>::empty()
        &&& self.domain.domain_text@ == Seq::<char>::empty()
        &&& self.graph.is_default()
    }

    /// Whether `after` has the captions and the welcome page of `self`.
    pub open spec fn same_frame(&self, after: &App) -> bool {
        &&& after.title == self.title
        &&& after.help == self.help
        &&& after.home == self.home
    }

    /// Whether `key` clears everything: Tab on the graph page.
    pub open spec fn resets(&self, key: Key) -> bool {
        self.focus == Focus::Graph && key == Key::Tab
    }

    /// Whether `key` finishes the last field: Enter on the domain page.
    pub open spec fn submits(&self, key: Key) -> bool {
        self.focus == Focus::Domain && key == Key::Enter
    }

    /// Whether `key` confirms that the program is to end: `y` on the
    /// question whether to leave.
    pub open spec fn confirms(&self, key: Key) -> bool {
        self.focus == Focus::Exiting && key == Key::Char('y')
    }

    /// What the page in focus does with `key`.
    ///
    /// A field takes it as typed. The graph page evaluates the expression
    /// field over the domain field on Enter, and ignores every other key.
    /// The welcome page and the question whether to leave take no key.
    pub open spec fn dispatched(before: App, key: Key, after: App) -> bool {
        &&& before.same_frame(&after)
        &&& after.focus == before.focus
        &&& match before.focus {
            Focus::Home | Focus::Exiting => {
                &&& after.expr == before.expr
                &&& after.domain == before.domain
                &&& after.graph == before.graph
            },
            Focus::Expr => {
                &&& after.expr.expr_text@ == ExprField::typed(before.expr.expr_text@, key)
                &&& after.domain == before.domain
                &&& after.graph == before.graph
            },
            Focus::Domain => {
                &&& after.expr == before.expr
                &&& after.domain.domain_text@ == Domain::typed(before.domain.domain_text@, key)
                &&& after.graph == before.graph
            },
            Focus::Graph => {
                &&& after.expr == before.expr
                &&& after.domain == before.domain
                &&& if key == Key::Enter {
                    Graph::eval_outcome(
                        before.graph,
                        before.expr.expr_text@,
                        before.domain.domain_text@,
                        after.graph,
                        Graph::eval_result(before.expr.expr_text@, before.domain.domain_text@),
                    )
                } else {
                    after.graph == before.graph
                }
            },
        }
    }

    /// Where `key` leads, and what it does on the way.
    ///
    /// Tab on the graph page clears everything. Enter on the domain page
    /// leads to the graph page and evaluates the expression field over the
    /// domain field. Any other key leads to the page that [`next_page`]
    /// names and changes nothing else. `moved` says whether the key did
    /// any of this.
    pub open spec fn moved(before: App, key: Key, after: App, moved: bool) -> bool {
        if before.resets(key) {
            &&& moved
            &&& after.is_initial()
            &&& after.home == before.home
        } else if before.submits(key) {
            &&& moved
            &&& before.same_frame(&after)
            &&& after.focus == Focus::Graph
            &&& after.expr == before.expr
            &&& after.domain == before.domain
            &&& Graph::eval_outcome(
                before.graph,
                before.expr.expr_text@,
                before.domain.domain_text@,
                after.graph,
                Graph::eval_result(before.expr.expr_text@, before.domain.domain_text@),
            )
        } else {
            &&& moved == (next_page(before.focus, key) != before.focus)
            &&& after == (App { focus: next_page(before.focus, key), ..before })
        }
    }

    /// What one key does: first the page in focus gets it, then it moves
    /// the focus. `taken` says whether the focus moved.
    pub open spec fn handled(before: App, key: Key, after: App, taken: bool) -> bool {
        exists|between: App|
            #[trigger] App::dispatched(before, key, between) && App::moved(
                between,
                key,
                after,
                taken,
            )
    }

    /// The application at startup.
    pub fn new() -> (app: Self)
        ensures
            app.is_initial(),
            app.home.home_text@ == greeting(),
    {
        Self {
            focus: Focus::Home,
            title: Title::new(),
            help: Help::new(),
            home: Home::new(),
            expr: ExprField::new(),
            domain: Domain::new(),
            graph: Graph::new(),
        }
    }

    /// Returns to the state at startup, whatever the state was. The
    /// welcome page is left as it is.
    pub fn reset(&mut self)
        ensures
            final(self).is_initial(),
            final(self).home == old(self).home,
    {
        self.focus = Focus::Home;
        self.title.reset();
        self.help.reset();
        self.expr.reset();
        self.domain.reset();
        self.graph.reset();
    }

    /// Sets both captions to those of the page in focus.
    pub fn refresh(&mut self)
        ensures
            final(self).title.title_text@ == title_of(old(self).focus),
            final(self).help.help_text@ == help_of(old(self).focus),
            final(self).focus == old(self).focus,
            final(self).home == old(self).home,
            final(self).expr == old(self).expr,
            final(self).domain == old(self).domain,
            final(self).graph == old(self).graph,
    {
        self.title.update(self.focus);
        self.help.update(self.focus);
    }

    /// Hands `key` to the page in focus. No page claims a key for itself,
    /// so the answer is always `false`.
    pub fn components_event(&mut self, key: Key) -> (claimed: bool)
        ensures
            !claimed,
            App::dispatched(*old(self), key, *final(self)),
    {
        match self.focus {
            Focus::Home => {
                self.home.event(key);
            },
            Focus::Expr => {
                self.expr.event(key);
            },
            Focus::Domain => {
                self.domain.event(key);
            },
            Focus::Graph => {
                self.graph.event(key, &self.expr.expr_text, &self.domain.domain_text);
            },
            Focus::Exiting => {},
        }
        false
    }

    /// Moves the focus as `key` asks, and says whether it did.
    pub fn move_focus(&mut self, key: Key) -> (moved: bool)
        ensures
            App::moved(*old(self), key, *final(self), moved),
    {
        match (self.focus, key) {
            (Focus::Home, Key::Tab) => {
                self.focus = Focus::Expr;
                true
            },
            (Focus::Home, Key::Char('q')) => {
                self.focus = Focus::Exiting;
                true
            },
            (Focus::Expr, Key::Tab) | (Focus::Expr, Key::Enter) => {
                self.focus = Focus::Domain;
                true
            },
            (Focus::Expr, Key::Esc) | (Focus::Domain, Key::Esc) => {
                self.focus = Focus::Home;
                true
            },
            (Focus::Domain, Key::Tab) => {
                self.focus = Focus::Graph;
                true
            },
            (Focus::Domain, Key::Enter) => {
                self.focus = Focus::Graph;
                self.graph.event(Key::Enter, &self.expr.expr_text, &self.domain.domain_text);
                true
            },
            (Focus::Graph, Key::Tab) => {
                self.reset();
                true
            },
            (Focus::Graph, Key::Char('q')) => {
                self.focus = Focus::Exiting;
                true
            },
            (Focus::Exiting, Key::Char('n')) => {
                self.focus = Focus::Home;
                true
            },
            _ => false,
        }
    }

    /// Handles one key press.
    pub fn event(&mut self, key: Key) -> (taken: bool)
        ensures
            App::handled(*old(self), key, *final(self), taken),
    {
        if self.components_event(key) {
            return true;
        }
        let ghost between = *self;
        let taken = self.move_focus(key);
        assert(App::dispatched(*old(self), key, between));
        taken
    }

    /// Decides what a key event does to the program.
    ///
    /// A key that was not pressed is ignored. The program ends on `y`, on
    /// the question whether to leave, and on nothing else. Any other key
    /// is handled.
    pub fn step(&mut self, key: Key, pressed: bool) -> (flow: Flow)
        ensures
            flow == Flow::Quit <==> pressed && old(self).confirms(key),
            !pressed || old(self).confirms(key) ==> *final(self) == *old(self),
            pressed && !old(self).confirms(key) ==> exists|taken: bool| #[trigger]
                App::handled(*old(self), key, *final(self), taken),
    {
        if !pressed {
            return Flow::Continue;
        }
        match (self.focus, key) {
            (Focus::Exiting, Key::Char('y')) => Flow::Quit,
            _ => {
                let taken = self.event(key);
                assert(App::handled(*old(self), key, *self, taken));
                Flow::Continue
            },
        }
    }
}

/// No key breaks the dataset: if it was sound before the key, it is sound
/// after, on whatever page the key arrived.
pub proof fn lemma_keys_keep_dataset_sound(before: App, key: Key, after: App, taken: bool)
    requires
        before.graph.is_sound(),
        App::handled(before, key, after, taken),
    ensures
        after.graph.is_sound(),
{
    let between = choose|between: App|
        #[trigger] App::dispatched(before, key, between) && App::moved(between, key, after, taken);
    if before.focus == Focus::Graph && key == Key::Enter {
        lemma_eval_keeps_dataset_sound(
            before.graph,
            before.expr.expr_text@,
            before.domain.domain_text@,
            between.graph,
            Graph::eval_result(before.expr.expr_text@, before.domain.domain_text@),
        );
    }
    if between.submits(key) {
        lemma_eval_keeps_dataset_sound(
            between.graph,
            between.expr.expr_text@,
            between.domain.domain_text@,
            after.graph,
            Graph::eval_result(between.expr.expr_text@, between.domain.domain_text@),
        );
    }
}

/// Escape leaves a field for the welcome page and keeps both texts and
/// the graph.
pub proof fn lemma_escape_leaves_the_field(before: App, after: App, taken: bool)
    requires
        before.focus == Focus::Expr || before.focus == Focus::Domain,
        App::handled(before, Key::Esc, after, taken),
    ensures
        after.focus == Focus::Home,
        after.expr.expr_text@ == before.expr.expr_text@,
        after.domain.domain_text@ == before.domain.domain_text@,
        after.graph == before.graph,
        taken,
{
}

/// Enter in the expression field leads to the domain field, keeps both
/// texts, and evaluates nothing.
pub proof fn lemma_enter_advances_from_the_expression(before: App, after: App, taken: bool)
    requires
        before.focus == Focus::Expr,
        App::handled(before, Key::Enter, after, taken),
    ensures
        after.focus == Focus::Domain,
        after.expr.expr_text@ == before.expr.expr_text@,
        after.domain.domain_text@ == before.domain.domain_text@,
        after.graph == before.graph,
        taken,
{
}

/// In a field every character is text, `q` too: it is appended, and the
/// field stays in focus.
pub proof fn lemma_characters_are_text_in_a_field(before: App, c: char, after: App, taken: bool)
    requires
        before.focus == Focus::Expr || before.focus == Focus::Domain,
        App::handled(before, Key::Char(c), after, taken),
    ensures
        after.focus == before.focus,
        before.focus == Focus::Expr ==> after.expr.expr_text@ == before.expr.expr_text@.push(c),
        before.focus == Focus::Domain ==> after.domain.domain_text@
            == before.domain.domain_text@.push(c),
        !taken,
{
}

/// The quit key does not end the program: it leads to the question
/// whether to leave, and from there `n` leads to the welcome page with
/// both texts and the graph as they were.
pub proof fn lemma_quit_asks_first(before: App, asked: App, after: App, first: bool, second: bool)
    requires
        before.focus == Focus::Home || before.focus == Focus::Graph,
        App::handled(before, Key::Char('q'), asked, first),
        App::handled(asked, Key::Char('n'), after, second),
    ensures
        asked.focus == Focus::Exiting,
        after.focus == Focus::Home,
        after.expr.expr_text@ == before.expr.expr_text@,
        after.domain.domain_text@ == before.domain.domain_text@,
        after.graph == before.graph,
{
}

} // verus!
