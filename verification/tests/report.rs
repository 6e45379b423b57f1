use comodoro::manual::{completions_report, summary, ManualGenerateCommand, Page};
use comodoro::report::{Backtrace, ErrorReport};

fn report(chain: &[&str], backtrace: Backtrace) -> ErrorReport {
    ErrorReport { chain: chain.iter().map(|s| s.to_string()).collect(), backtrace }
}

#[test]
fn sources_are_the_chain_without_its_first_link() {
    assert_eq!(
        report(&["top", "middle", "root"], Backtrace::Disabled).sources(),
        vec!["middle".to_string(), "root".to_string()]
    );
    assert!(report(&["top"], Backtrace::Disabled).sources().is_empty());
    assert!(report(&[], Backtrace::Disabled).sources().is_empty());
}

#[test]
fn suggestions_depend_on_logs_and_backtrace() {
    let debug = "Run with --debug to enable debug logs";
    let trace = "Run with --trace to enable verbose logs with backtraces";
    let disabled = report(&["e"], Backtrace::Disabled);
    assert_eq!(disabled.suggestions(false, false), vec![debug, trace]);
    assert_eq!(disabled.suggestions(true, false), vec![trace]);
    assert_eq!(disabled.suggestions(false, true), vec![debug]);
    assert!(disabled.suggestions(true, true).is_empty());
    let captured = report(&["e"], Backtrace::Captured("at main".to_string()));
    assert_eq!(captured.suggestions(true, true), vec![trace]);
    let unsupported = report(&["e"], Backtrace::Unsupported);
    assert_eq!(unsupported.suggestions(true, true), vec![trace]);
}

#[test]
fn backtrace_is_given_where_it_was_captured() {
    assert_eq!(
        report(&["e"], Backtrace::Captured("at main".to_string())).backtrace(),
        Some(&"at main".to_string())
    );
    assert_eq!(report(&["e"], Backtrace::Disabled).backtrace(), None);
    assert_eq!(report(&["e"], Backtrace::Unsupported).backtrace(), None);
}

#[test]
fn bare_report() {
    assert_eq!(report(&["boom"], Backtrace::Disabled).render(true, true), "Error: boom\n");
    assert_eq!(report(&[], Backtrace::Disabled).render(true, true), "Error: \n");
}

#[test]
fn full_report() {
    let full = report(&["cannot start", "cannot bind", "address in use"], Backtrace::Captured("0: main\n1: start".to_string()));
    assert_eq!(
        full.render(false, false),
        "Error: cannot start\n\
         \nCaused by:\n - cannot bind\n - address in use\
         \nBacktrace:\n0: main\n1: start\
         \nSuggestions:\n - Run with --debug to enable debug logs\n - Run with --trace to enable verbose logs with backtraces"
    );
}

#[test]
fn report_with_causes_only() {
    assert_eq!(
        report(&["top", "root"], Backtrace::Disabled).render(true, true),
        "Error: top\n\nCaused by:\n - root"
    );
}

#[test]
fn report_with_suggestions_only() {
    assert_eq!(
        report(&["top"], Backtrace::Disabled).render(false, true),
        "Error: top\n\nSuggestions:\n - Run with --debug to enable debug logs"
    );
}

#[test]
fn man_pages_of_a_program_and_its_subcommands() {
    let command = ManualGenerateCommand { dir: "/usr/share/man".to_string() };
    let pages = command.execute("comodoro", &vec!["start".to_string(), "server".to_string()]);
    assert_eq!(
        pages,
        vec![
            Page { command: "comodoro".to_string(), file: "comodoro.1".to_string() },
            Page { command: "start".to_string(), file: "comodoro-start.1".to_string() },
            Page { command: "server".to_string(), file: "comodoro-server.1".to_string() },
        ]
    );
    assert_eq!(
        command.execute("x", &Vec::new()),
        vec![Page { command: "x".to_string(), file: "x.1".to_string() }]
    );
    assert_eq!(command.report(3), "3 man page(s) successfully generated in /usr/share/man");
}

#[test]
fn summaries() {
    assert_eq!(
        completions_report(2, "./"),
        "2 completion script(s) successfully generated in ./"
    );
    assert_eq!(summary(0, "file(s)", ""), "0 file(s) successfully generated in ");
}
