//! The report of an error that ended a command: the error, what caused it,
//! where it arose, and what the user may try.

use vstd::prelude::*;
use vstd::string::StringExecFns;

verus! {

/// The record of where an error arose.
#[derive(Debug, PartialEq, Eq)]
pub enum Backtrace {
    /// The platform cannot capture one.
    Unsupported,
    /// Capturing was not asked for.
    Disabled,
    /// What was captured, as text.
    Captured(String),
}

/// An error and the chain of causes behind it, outermost first, with the
/// record of where it arose.
#[derive(Debug, PartialEq, Eq)]
pub struct ErrorReport {
    pub chain: Vec<String>,
    pub backtrace: Backtrace,
}

/// The advice to turn on debug logs.
pub open spec fn debug_advice() -> Seq<char> {
    "Run with --debug to enable debug logs"@
}

/// The advice to turn on trace logs.
pub open spec fn trace_advice() -> Seq<char> {
    "Run with --trace to enable verbose logs with backtraces"@
}

/// What the user may try: to turn on debug logs where they are off, and to
/// turn on trace logs where they are off or where capturing a backtrace is
/// anything but disabled.
pub open spec fn advice(debug_logs: bool, trace_logs: bool, backtrace_disabled: bool) -> Seq<
    Seq<char>,
> {
    let first = if !debug_logs {
        seq![debug_advice()]
    } else {
        Seq::<Seq<char>>::empty()
    };
    if !trace_logs || !backtrace_disabled {
        first.push(trace_advice())
    } else {
        first
    }
}

/// A list as it is printed: each item on a line of its own, after a dash.
pub open spec fn bullets(items: Seq<Seq<char>>) -> Seq<char>
    decreases items.len(),
{
    if items.len() == 0 {
        Seq::<char>::empty()
    } else {
        bullets(items.drop_last()) + "\n - "@ + items.last()
    }
}

/// A list under its heading, or nothing for an empty list.
pub open spec fn section(heading: Seq<char>, items: Seq<Seq<char>>) -> Seq<char> {
    if items.len() == 0 {
        Seq::<char>::empty()
    } else {
        "\n"@ + heading + bullets(items)
    }
}

/// The part of the report that shows a captured backtrace.
pub open spec fn backtrace_section(backtrace: Backtrace) -> Seq<char> {
    match backtrace {
        Backtrace::Captured(text) => "\nBacktrace:\n"@ + text@,
        _ => Seq::<char>::empty(),
    }
}

/// The texts of a list of strings.
pub open spec fn texts(items: Seq<String>) -> Seq<Seq<char>> {
    items.map_values(|item: String| item@)
}

/// The texts of a list of string slices.
pub open spec fn slices(items: Seq<&'static str>) -> Seq<Seq<char>> {
    items.map_values(|item: &'static str| item@)
}

fn append_section(text: &mut String, heading: &str, items: &Vec<String>)
    ensures
        final(text)@ == old(text)@ + section(heading@, texts(items@)),
{
    if items.len() == 0 {
        assert(text@ + Seq::<char>::empty() =~= text@);
        return ;
    }
    text.append("\n");
    text.append(heading);
    let ghost start = text@;
    let mut i: usize = 0;
    assert(texts(items@).subrange(0, 0) =~= Seq::<Seq<char>>::empty());
    assert(start + Seq::<char>::empty() =~= start);
    while i < items.len()
        invariant
            i <= items.len(),
            text@ == start + bullets(texts(items@).subrange(0, i as int)),
        decreases items.len() - i,
    {
        let ghost listed = texts(items@).subrange(0, i as int);
        let ghost next = texts(items@).subrange(0, i + 1);
        assert(next.drop_last() =~= listed);
        assert(next.last() == items@[i as int]@);
        text.append("\n - ");
        text.append(items[i].as_str());
        assert(text@ =~= start + bullets(next));
        i += 1;
    }
    assert(texts(items@).subrange(0, items.len() as int) =~= texts(items@));
    assert(text@ =~= old(text)@ + section(heading@, texts(items@)));
}

impl ErrorReport {
    /// The error itself, as text; empty where the chain is.
    pub open spec fn error_spec(&self) -> Seq<char> {
        if self.chain.len() == 0 {
            Seq::<char>::empty()
        } else {
            self.chain[0]@
        }
    }

    /// The causes behind the error, outermost first.
    pub open spec fn sources_spec(&self) -> Seq<Seq<char>> {
        if self.chain.len() == 0 {
            Seq::<Seq<char>>::empty()
        } else {
            texts(self.chain@).subrange(1, self.chain.len() as int)
        }
    }

    /// The whole report as it is printed.
    pub open spec fn rendered(&self, debug_logs: bool, trace_logs: bool) -> Seq<char> {
        "Error: "@ + self.error_spec() + "\n"@ + section("Caused by:"@, self.sources_spec())
            + backtrace_section(self.backtrace) + section(
            "Suggestions:"@,
            advice(debug_logs, trace_logs, self.backtrace is Disabled),
        )
    }

    /// The causes behind the error: the chain without its first link.
    pub fn sources(&self) -> (sources: Vec<String>)
        ensures
            texts(sources@) == self.sources_spec(),
    {
        let mut sources: Vec<String> = Vec::new();
        let mut i: usize = 1;
        while i < self.chain.len()
            invariant
                1 <= i,
                self.chain.len() > 0 ==> i <= self.chain.len(),
                self.chain.len() > 0 ==> sources.len() == i - 1,
                self.chain.len() == 0 ==> sources.len() == 0,
                forall|j: int| 0 <= j < sources.len() ==> sources[j]@ == self.chain[j + 1]@,
            decreases self.chain.len() - i,
        {
            sources.push(self.chain[i].clone());
            i += 1;
        }
        assert(texts(sources@) =~= self.sources_spec());
        sources
    }

    /// What the user may try, given which logs are on.
    pub fn suggestions(&self, debug_logs: bool, trace_logs: bool) -> (suggestions: Vec<
        &'static str,
    >)
        ensures
            slices(suggestions@) == advice(debug_logs, trace_logs, self.backtrace is Disabled),
    {
        let mut suggestions: Vec<&'static str> = Vec::new();
        if !debug_logs {
            suggestions.push("Run with --debug to enable debug logs");
        }
        let backtrace = matches!(self.backtrace, Backtrace::Disabled);
        if !trace_logs || !backtrace {
            suggestions.push("Run with --trace to enable verbose logs with backtraces");
        }
        assert(slices(suggestions@) =~= advice(
            debug_logs,
            trace_logs,
            self.backtrace is Disabled,
        ));
        suggestions
    }

    /// The backtrace, where one was captured.
    pub fn backtrace(&self) -> (captured: Option<&String>)
        ensures
            captured == (match self.backtrace {
                Backtrace::Captured(text) => Some(&text),
                _ => None,
            }),
    {
        match &self.backtrace {
            Backtrace::Captured(text) => Some(text),
            _ => None,
        }
    }

    /// Writes the report: the error; under `Caused by:` its causes, if any;
    /// under `Backtrace:` the backtrace, if one was captured; under
    /// `Suggestions:` what the user may try, if anything.
    pub fn render(&self, debug_logs: bool, trace_logs: bool) -> (text: String)
        ensures
            text@ == self.rendered(debug_logs, trace_logs),
    {
        let mut text = String::from_str("Error: ");
        if self.chain.len() > 0 {
            text.append(self.chain[0].as_str());
        }
        text.append("\n");
        assert(text@ =~= "Error: "@ + self.error_spec() + "\n"@);
        let sources = self.sources();
        append_section(&mut text, "Caused by:", &sources);
        match &self.backtrace {
            Backtrace::Captured(trace) => {
                text.append("\nBacktrace:\n");
                text.append(trace.as_str());
            },
            _ => {
                assert(text@ + Seq::<char>::empty() =~= text@);
            },
        }
        let advised = self.suggestions(debug_logs, trace_logs);
        let mut owned: Vec<String> = Vec::new();
        let mut i: usize = 0;
        while i < advised.len()
            invariant
                i <= advised.len(),
                owned.len() == i,
                forall|j: int| 0 <= j < i ==> owned[j]@ == advised[j]@,
            decreases advised.len() - i,
        {
            owned.push(String::from_str(advised[i]));
            i += 1;
        }
        assert(texts(owned@) =~= slices(advised@));
        append_section(&mut text, "Suggestions:", &owned);
        text
    }
}

} // verus!
