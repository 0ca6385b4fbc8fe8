use eq_grapher::app::{App, Flow, Focus};
use eq_grapher::key::Key;

fn finish_run(app: &mut App) {
    if let Some(expr) = app.graph.expression() {
        let f = expr.clone().bind("x").unwrap();
        while let Some(x) = app.graph.wanted() {
            if app.graph.supply(f(x as f64).to_bits()).is_err() {
                break;
            }
        }
    }
}

fn press(app: &mut App, key: Key) -> bool {
    let taken = app.event(key);
    finish_run(app);
    taken
}

fn type_text(app: &mut App, text: &str) {
    for c in text.chars() {
        assert!(!press(app, Key::Char(c)));
    }
}

fn points(app: &App) -> Vec<(f64, f64)> {
    app.graph.coordinate_vector.iter().map(|p| (p.0 as f64, f64::from_bits(p.1))).collect()
}

fn is_initial(app: &App) -> bool {
    app.focus == Focus::Home
        && app.title.title_text.is_empty()
        && app.help.help_text.is_empty()
        && app.expr.expr_text.is_empty()
        && app.domain.domain_text.is_empty()
        && app.graph.coordinate_vector.is_empty()
        && app.graph.x_min == 0
        && app.graph.x_max == 0
        && app.graph.y_min == 0
        && app.graph.y_max == 0
        && app.graph.pending.is_none()
}

#[test]
fn app_starts_on_the_welcome_page() {
    let app = App::new();
    assert!(is_initial(&app));
    assert_eq!(app.home.home_text, "Welcome to Terminal EQ Grapher");
}

#[test]
fn tab_goes_through_the_pages_and_resets_after_the_graph() {
    let mut app = App::new();
    assert!(press(&mut app, Key::Tab));
    assert_eq!(app.focus, Focus::Expr);
    type_text(&mut app, "x*x");
    assert!(press(&mut app, Key::Tab));
    assert_eq!(app.focus, Focus::Domain);
    type_text(&mut app, "-2..2");
    assert!(press(&mut app, Key::Tab));
    assert_eq!(app.focus, Focus::Graph);
    assert_eq!(app.expr.expr_text, "x*x");
    assert_eq!(app.domain.domain_text, "-2..2");
    assert!(app.graph.coordinate_vector.is_empty());
    assert!(!press(&mut app, Key::Enter));
    assert_eq!(points(&app), vec![(-2.0, 4.0), (-1.0, 1.0), (0.0, 0.0), (1.0, 1.0), (2.0, 4.0)]);
    assert_eq!((app.graph.x_min, app.graph.x_max), (-2, 2));
    assert_eq!(f64::from_bits(app.graph.y_min), 0.0);
    assert_eq!(f64::from_bits(app.graph.y_max), 4.0);
    app.refresh();
    assert_eq!(app.title.title_text, "GRAPH");
    assert!(press(&mut app, Key::Tab));
    assert!(is_initial(&app));
    assert_eq!(app.home.home_text, "Welcome to Terminal EQ Grapher");
}

#[test]
fn enter_finishes_the_fields_and_evaluates_after_the_last() {
    let mut app = App::new();
    assert!(!press(&mut app, Key::Enter));
    assert_eq!(app.focus, Focus::Home);
    assert!(press(&mut app, Key::Tab));
    type_text(&mut app, "x");
    assert!(press(&mut app, Key::Enter));
    assert_eq!(app.focus, Focus::Domain);
    assert_eq!(app.expr.expr_text, "x");
    assert_eq!(app.domain.domain_text, "");
    assert!(app.graph.coordinate_vector.is_empty());
    assert!(app.graph.pending.is_none());
    type_text(&mut app, "0..3");
    assert!(press(&mut app, Key::Enter));
    assert_eq!(app.focus, Focus::Graph);
    assert_eq!(points(&app), vec![(0.0, 0.0), (1.0, 1.0), (2.0, 2.0), (3.0, 3.0)]);
    assert_eq!((app.graph.x_min, app.graph.x_max), (0, 3));
    assert_eq!(f64::from_bits(app.graph.y_min), 0.0);
    assert_eq!(f64::from_bits(app.graph.y_max), 3.0);
    assert_eq!(app.expr.expr_text, "x");
    assert_eq!(app.domain.domain_text, "0..3");
}

#[test]
fn enter_on_the_domain_page_asks_for_the_first_value() {
    let mut app = App::new();
    app.focus = Focus::Domain;
    app.expr.expr_text = "x".to_string();
    app.domain.domain_text = "4..6".to_string();
    assert!(app.move_focus(Key::Enter));
    assert_eq!(app.focus, Focus::Graph);
    assert_eq!(app.graph.wanted(), Some(4));
    assert!(app.graph.coordinate_vector.is_empty());
}

#[test]
fn escape_leaves_a_field_and_keeps_the_texts() {
    let mut app = App::new();
    assert!(!press(&mut app, Key::Esc));
    assert_eq!(app.focus, Focus::Home);
    press(&mut app, Key::Tab);
    type_text(&mut app, "x+1");
    assert!(press(&mut app, Key::Esc));
    assert_eq!(app.focus, Focus::Home);
    assert_eq!(app.expr.expr_text, "x+1");
    press(&mut app, Key::Tab);
    press(&mut app, Key::Tab);
    assert_eq!(app.focus, Focus::Domain);
    type_text(&mut app, "0..");
    assert!(press(&mut app, Key::Esc));
    assert_eq!(app.focus, Focus::Home);
    assert_eq!(app.expr.expr_text, "x+1");
    assert_eq!(app.domain.domain_text, "0..");
    assert!(app.graph.coordinate_vector.is_empty());
    app.focus = Focus::Graph;
    assert!(!press(&mut app, Key::Esc));
    assert_eq!(app.focus, Focus::Graph);
}

#[test]
fn keys_go_to_the_page_in_focus() {
    let mut app = App::new();
    type_text(&mut app, "abc");
    assert!(!press(&mut app, Key::Backspace));
    assert!(!press(&mut app, Key::Enter));
    assert!(is_initial(&app));
    assert!(press(&mut app, Key::Tab));
    type_text(&mut app, "sin(x))");
    assert!(!press(&mut app, Key::Backspace));
    assert!(!press(&mut app, Key::Other));
    assert_eq!(app.expr.expr_text, "sin(x)");
    assert_eq!(app.domain.domain_text, "");
    assert!(press(&mut app, Key::Tab));
    type_text(&mut app, "0..77");
    assert!(!press(&mut app, Key::Backspace));
    assert_eq!(app.expr.expr_text, "sin(x)");
    assert_eq!(app.domain.domain_text, "0..7");
    assert!(press(&mut app, Key::Tab));
    type_text(&mut app, "zzz");
    assert!(!press(&mut app, Key::Backspace));
    assert_eq!(app.expr.expr_text, "sin(x)");
    assert_eq!(app.domain.domain_text, "0..7");
    assert!(app.graph.coordinate_vector.is_empty());
}

#[test]
fn q_can_be_typed_into_a_field() {
    let mut app = App::new();
    press(&mut app, Key::Tab);
    type_text(&mut app, "sqrt(x)");
    assert_eq!(app.focus, Focus::Expr);
    assert_eq!(app.expr.expr_text, "sqrt(x)");
    assert_eq!(app.step(Key::Char('q'), true), Flow::Continue);
    assert_eq!(app.expr.expr_text, "sqrt(x)q");
    press(&mut app, Key::Backspace);
    press(&mut app, Key::Enter);
    type_text(&mut app, "0..4q");
    assert_eq!(app.focus, Focus::Domain);
    assert_eq!(app.domain.domain_text, "0..4q");
    press(&mut app, Key::Backspace);
    assert!(press(&mut app, Key::Enter));
    assert_eq!(points(&app), vec![(0.0, 0.0), (1.0, 1.0), (2.0, 2f64.sqrt()), (3.0, 3f64.sqrt()), (4.0, 2.0)]);
}

#[test]
fn failed_evaluation_leaves_the_graph_as_it_was() {
    let mut app = App::new();
    press(&mut app, Key::Tab);
    type_text(&mut app, "1/x");
    press(&mut app, Key::Tab);
    type_text(&mut app, "-1..1");
    press(&mut app, Key::Tab);
    assert!(!press(&mut app, Key::Enter));
    assert_eq!(app.focus, Focus::Graph);
    assert!(app.graph.coordinate_vector.is_empty());
    assert!(app.graph.pending.is_none());
    assert_eq!((app.graph.x_min, app.graph.x_max), (0, 0));
    let mut app = App::new();
    press(&mut app, Key::Tab);
    type_text(&mut app, "sin(");
    press(&mut app, Key::Enter);
    type_text(&mut app, "0..10");
    assert!(press(&mut app, Key::Enter));
    assert_eq!(app.focus, Focus::Graph);
    assert!(app.graph.coordinate_vector.is_empty());
    assert!(app.graph.pending.is_none());
}

#[test]
fn move_focus_follows_the_round() {
    let mut app = App::new();
    for key in [Key::Char('x'), Key::Backspace, Key::Enter, Key::Esc, Key::Other] {
        assert!(!app.move_focus(key));
        assert_eq!(app.focus, Focus::Home);
    }
    assert!(app.move_focus(Key::Tab));
    assert_eq!(app.focus, Focus::Expr);
    for key in [Key::Char('q'), Key::Char('y'), Key::Backspace, Key::Other] {
        assert!(!app.move_focus(key));
        assert_eq!(app.focus, Focus::Expr);
    }
    assert!(app.move_focus(Key::Tab));
    assert_eq!(app.focus, Focus::Domain);
    for key in [Key::Char('q'), Key::Char('n'), Key::Backspace, Key::Other] {
        assert!(!app.move_focus(key));
        assert_eq!(app.focus, Focus::Domain);
    }
    assert!(app.move_focus(Key::Tab));
    assert_eq!(app.focus, Focus::Graph);
    assert!(app.graph.pending.is_none());
    for key in [Key::Char('x'), Key::Backspace, Key::Enter, Key::Esc, Key::Other] {
        assert!(!app.move_focus(key));
        assert_eq!(app.focus, Focus::Graph);
    }
    assert!(app.move_focus(Key::Tab));
    assert_eq!(app.focus, Focus::Home);
    app.focus = Focus::Expr;
    assert!(app.move_focus(Key::Enter));
    assert_eq!(app.focus, Focus::Domain);
    assert!(app.move_focus(Key::Esc));
    assert_eq!(app.focus, Focus::Home);
    app.focus = Focus::Expr;
    assert!(app.move_focus(Key::Esc));
    assert_eq!(app.focus, Focus::Home);
}

#[test]
fn components_event_claims_no_key() {
    let mut app = App::new();
    app.focus = Focus::Expr;
    assert!(!app.components_event(Key::Char('x')));
    assert!(!app.components_event(Key::Tab));
    assert_eq!(app.expr.expr_text, "x");
    assert_eq!(app.focus, Focus::Expr);
    app.focus = Focus::Domain;
    assert!(!app.components_event(Key::Char('1')));
    assert_eq!(app.domain.domain_text, "1");
    app.focus = Focus::Graph;
    assert!(!app.components_event(Key::Enter));
    assert!(app.graph.pending.is_none());
    app.domain.domain_text = "1..2".to_string();
    assert!(!app.components_event(Key::Enter));
    assert_eq!(app.graph.wanted(), Some(1));
    app.focus = Focus::Exiting;
    assert!(!app.components_event(Key::Char('x')));
    assert_eq!(app.expr.expr_text, "x");
    assert_eq!(app.domain.domain_text, "1..2");
}

#[test]
fn refresh_sets_both_captions() {
    let mut app = App::new();
    app.refresh();
    assert_eq!(app.title.title_text, "HOME");
    assert_eq!(app.help.help_text, "Press <Tab> to continue or <Q> to quit");
    app.focus = Focus::Domain;
    app.refresh();
    assert_eq!(app.title.title_text, "DOMAIN");
    assert_eq!(
        app.help.help_text,
        "Enter a domain (ie: -5..5), Press <Enter> to render graph or <Esc> to go back"
    );
    app.focus = Focus::Exiting;
    app.refresh();
    assert_eq!(app.title.title_text, "EXIT");
    assert_eq!(app.help.help_text, "Press <Y> to quit or <N> to stay");
}

#[test]
fn quit_key_asks_and_only_confirm_ends() {
    for page in [Focus::Home, Focus::Graph] {
        let mut app = App::new();
        app.focus = page;
        assert_eq!(app.step(Key::Char('q'), true), Flow::Continue);
        assert_eq!(app.focus, Focus::Exiting);
        for key in [Key::Char('q'), Key::Char('x'), Key::Tab, Key::Enter, Key::Esc, Key::Backspace, Key::Other] {
            assert_eq!(app.step(key, true), Flow::Continue);
            assert_eq!(app.focus, Focus::Exiting);
        }
        assert_eq!(app.step(Key::Char('y'), false), Flow::Continue);
        assert_eq!(app.focus, Focus::Exiting);
        assert_eq!(app.step(Key::Char('y'), true), Flow::Quit);
        assert_eq!(app.focus, Focus::Exiting);
    }
}

#[test]
fn quit_then_cancel_returns_to_the_welcome_page() {
    let mut app = App::new();
    press(&mut app, Key::Tab);
    type_text(&mut app, "x");
    press(&mut app, Key::Enter);
    type_text(&mut app, "0..3");
    press(&mut app, Key::Enter);
    assert_eq!(app.focus, Focus::Graph);
    assert_eq!(app.step(Key::Char('q'), true), Flow::Continue);
    assert_eq!(app.focus, Focus::Exiting);
    assert_eq!(app.step(Key::Char('n'), true), Flow::Continue);
    assert_eq!(app.focus, Focus::Home);
    assert_eq!(app.expr.expr_text, "x");
    assert_eq!(app.domain.domain_text, "0..3");
    assert_eq!(app.graph.coordinate_vector.len(), 4);
    for key in [Key::Other, Key::Esc, Key::Char('z')] {
        assert_eq!(app.step(key, true), Flow::Continue);
        assert_eq!(app.focus, Focus::Home);
    }
}

#[test]
fn confirm_key_ends_nothing_outside_the_question() {
    for page in [Focus::Home, Focus::Expr, Focus::Domain, Focus::Graph] {
        let mut app = App::new();
        app.focus = page;
        assert_eq!(app.step(Key::Char('y'), true), Flow::Continue);
        assert_eq!(app.focus, page);
        assert_eq!(app.step(Key::Char('n'), true), Flow::Continue);
        assert_eq!(app.focus, page);
    }
}

#[test]
fn keys_that_were_not_pressed_are_ignored() {
    let mut app = App::new();
    assert_eq!(app.step(Key::Tab, false), Flow::Continue);
    assert_eq!(app.focus, Focus::Home);
    assert_eq!(app.step(Key::Char('q'), false), Flow::Continue);
    assert_eq!(app.focus, Focus::Home);
    assert_eq!(app.step(Key::Tab, true), Flow::Continue);
    assert_eq!(app.focus, Focus::Expr);
    assert_eq!(app.step(Key::Char('x'), false), Flow::Continue);
    assert_eq!(app.expr.expr_text, "");
    assert_eq!(app.step(Key::Char('x'), true), Flow::Continue);
    assert_eq!(app.expr.expr_text, "x");
}

#[test]
fn app_reset_returns_to_the_start_from_any_page() {
    for page in [Focus::Home, Focus::Expr, Focus::Domain, Focus::Graph, Focus::Exiting] {
        let mut app = App::new();
        press(&mut app, Key::Tab);
        type_text(&mut app, "x");
        press(&mut app, Key::Tab);
        type_text(&mut app, "0..3");
        press(&mut app, Key::Tab);
        press(&mut app, Key::Enter);
        assert_eq!(app.graph.coordinate_vector.len(), 4);
        app.refresh();
        app.focus = page;
        app.reset();
        assert!(is_initial(&app));
    }
}
