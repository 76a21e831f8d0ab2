use eoe::Color;
use eoe::ExitOnError;
use eoe::QuitOnError;
use eoe::Registry;
use eoe::Report;
use eoe::Segment;
use eoe::Termination;
use eoe::TextStyle;

fn halt_of<T>(t: Termination<T>) -> Report {
    match t {
        Termination::Proceed(_) => panic!("expected a halt"),
        Termination::Halt(rep) => rep,
    }
}

#[test]
fn ok_passes_value_through() {
    let mut reg = Registry::new();
    let r = Ok::<i32, anyhow::Error>(5).exit_on_error(&mut reg);
    assert!(matches!(r, Termination::Proceed(5)));
    assert!(reg.error.is_none());
    assert!(reg.sep.is_none());
}

#[test]
fn some_passes_value_through() {
    let mut reg = Registry::new();
    let r = Some("up").exit_on_error(&mut reg);
    assert!(matches!(r, Termination::Proceed("up")));
    assert!(reg.message_on_none.is_none());
}

#[test]
fn quit_ok_passes_value_through() {
    let mut reg = Registry::new();
    let r = Ok::<i32, anyhow::Error>(-3).quit_on_error(&mut reg);
    assert!(matches!(r, Termination::Proceed(-3)));
}

#[test]
fn quit_some_passes_value_through() {
    let mut reg = Registry::new();
    let r = Some(9u8).quit_on_error(&mut reg);
    assert!(matches!(r, Termination::Proceed(9)));
}

#[test]
fn failure_chain_prints_in_order() {
    let mut reg = Registry::new();
    let error = anyhow::Error::msg("Mm-noom-ba-deh")
        .context("Doom-boom-ba-beh")
        .context("Doo-boo-boom-ba-beh-beh");
    let rep = halt_of(Err::<(), anyhow::Error>(error).exit_on_error(&mut reg));
    assert_eq!(rep.status, 1);
    assert_eq!(rep.lines.len(), 3);
    assert_eq!(rep.lines[0].plain_text(), "error: Doo-boo-boom-ba-beh-beh");
    assert_eq!(rep.lines[1].plain_text(), "caused by: Doom-boom-ba-beh");
    assert_eq!(rep.lines[2].plain_text(), "caused by: Mm-noom-ba-deh");
}

#[test]
fn failure_chain_with_quit_flavor() {
    let mut reg = Registry::new();
    let error = anyhow::Error::msg("Mm-ba-ba-beh, mm-ba-ba-beh").context("Dee-day-da, ee-day-da");
    let rep = halt_of(Err::<(), anyhow::Error>(error).quit_on_error(&mut reg));
    assert_eq!(rep.status, 1);
    assert_eq!(rep.lines.len(), 2);
    assert_eq!(rep.lines[0].plain_text(), "error: Dee-day-da, ee-day-da");
    assert_eq!(rep.lines[1].plain_text(), "caused by: Mm-ba-ba-beh, mm-ba-ba-beh");
}

#[test]
fn single_cause_leaves_caused_by_slot_alone() {
    let mut reg = Registry::new();
    let error = anyhow::Error::msg("alone");
    let rep = halt_of(Err::<(), anyhow::Error>(error).exit_on_error(&mut reg));
    assert_eq!(rep.lines.len(), 1);
    assert_eq!(rep.lines[0].plain_text(), "error: alone");
    assert!(reg.caused_by.is_none());
}

#[test]
fn none_prints_default_message() {
    let mut reg = Registry::new();
    let rep = halt_of(None::<()>.exit_on_error(&mut reg));
    assert_eq!(rep.status, 1);
    assert_eq!(rep.lines.len(), 1);
    assert_eq!(rep.lines[0].plain_text(), "error: unexpected None");
}

#[test]
fn none_with_quit_flavor() {
    let mut reg = Registry::new();
    let rep = halt_of(None::<()>.quit_on_error(&mut reg));
    assert_eq!(rep.status, 1);
    assert_eq!(rep.lines[0].plain_text(), "error: unexpected None");
}

#[test]
fn none_prints_configured_message() {
    let mut reg = Registry::new();
    assert!(reg.set_error(Segment {
        style: TextStyle::new().bold().blue(),
        value: String::from("Watchin'..."),
    }));
    assert!(reg.set_sep(Segment { style: TextStyle::new(), value: String::from(" \u{1f631} ") }));
    assert!(reg.set_message_style(TextStyle::new().italic().yellow()));
    assert!(reg.set_message_on_none(String::from("Let me out")));
    let rep = halt_of(None::<()>.exit_on_error(&mut reg));
    assert_eq!(rep.status, 1);
    assert_eq!(rep.lines.len(), 1);
    assert_eq!(rep.lines[0].plain_text(), "Watchin'... \u{1f631} Let me out");
}

#[test]
fn first_set_wins_on_every_slot() {
    let mut reg = Registry::new();
    let first = Segment { style: TextStyle::new(), value: String::from("first") };
    let second = Segment { style: TextStyle::new().red(), value: String::from("second") };
    assert!(reg.set_error(first));
    assert!(!reg.set_error(second));
    assert_eq!(reg.error().value, "first");

    assert!(reg.set_message_on_none(String::from("gone")));
    assert!(!reg.set_message_on_none(String::from("changed")));
    assert_eq!(reg.message_on_none(), "gone");

    assert!(reg.set_message_style(TextStyle::new().bold()));
    assert!(!reg.set_message_style(TextStyle::new()));
    assert!(reg.message_style().bold);
}

#[test]
fn first_read_fixes_the_slot() {
    let mut reg = Registry::new();
    assert_eq!(reg.error().value, "error");
    // The read resolved the slot to the default, so a set now fails.
    assert!(!reg.set_error(Segment { style: TextStyle::new(), value: String::from("late") }));
    assert_eq!(reg.error().value, "error");
}

#[test]
fn default_labels_and_separator() {
    let mut reg = Registry::new();
    assert_eq!(reg.error().value, "error");
    assert_eq!(reg.error().style, TextStyle::new().red().bold());
    assert_eq!(reg.caused_by().value, "caused by");
    assert_eq!(reg.caused_by().style, TextStyle::new().red().bold());
    assert_eq!(reg.sep().value, ": ");
    assert_eq!(reg.message_style(), TextStyle::new());
    assert_eq!(reg.message_on_none(), "unexpected None");
}

#[test]
fn style_builders_set_their_fields() {
    let s = TextStyle::new();
    assert_eq!(s.fg, None);
    assert_eq!(s.bg, None);
    assert!(!s.bold && !s.italic && !s.underline && !s.dimmed);

    let s = TextStyle::new().red().bold();
    assert_eq!(s.fg, Some(Color::Red));
    assert!(s.bold);

    let s = TextStyle::new().italic().yellow();
    assert_eq!(s.fg, Some(Color::Yellow));
    assert!(s.italic);

    let s = TextStyle::new().fg(Color::Green).bg(Color::Black).underline().dimmed();
    assert_eq!(s.fg, Some(Color::Green));
    assert_eq!(s.bg, Some(Color::Black));
    assert!(s.underline && s.dimmed);

    let s = TextStyle::new().blue();
    assert_eq!(s.fg, Some(Color::Blue));
}

#[test]
fn styled_line_shows_the_plain_parts_in_order() {
    let mut reg = Registry::new();
    let rep = halt_of(None::<()>.exit_on_error(&mut reg));
    let styled = &rep.lines[0].styled;
    let label_at = styled.find("error").expect("label missing from styled line");
    let sep_at = styled[label_at..].find(": ").expect("separator missing") + label_at;
    assert!(styled[sep_at..].contains("unexpected None"));
}

#[test]
fn segment_display_shows_the_text() {
    let seg = Segment { style: TextStyle::new().red().bold(), value: String::from("needle") };
    assert!(seg.display().contains("needle"));
}

#[test]
fn report_failure_renders_each_message() {
    let mut reg = Registry::new();
    let messages = vec![String::from("one"), String::from("two"), String::from("three")];
    let rep = eoe::report_failure(&mut reg, &messages);
    assert_eq!(rep.status, 1);
    assert_eq!(rep.lines.len(), 3);
    assert_eq!(rep.lines[0].plain_text(), "error: one");
    assert_eq!(rep.lines[1].plain_text(), "caused by: two");
    assert_eq!(rep.lines[2].plain_text(), "caused by: three");
}

#[test]
fn report_none_renders_one_line() {
    let mut reg = Registry::new();
    let rep = eoe::report_none(&mut reg);
    assert_eq!(rep.status, 1);
    assert_eq!(rep.lines.len(), 1);
    assert_eq!(rep.lines[0].plain_text(), "error: unexpected None");
}

#[test]
fn print_functions_render_single_lines() {
    let mut reg = Registry::new();
    let line = eoe::print_error(&mut reg, "broke");
    assert_eq!(line.plain_text(), "error: broke");
    let line = eoe::print_caused_by(&mut reg, "deeper");
    assert_eq!(line.plain_text(), "caused by: deeper");
    let line = eoe::print(
        &mut reg,
        Segment { style: TextStyle::new(), value: String::from("note") },
        "aside",
    );
    assert_eq!(line.plain_text(), "note: aside");
}
