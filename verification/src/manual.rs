//! Man pages and completion scripts: which files are written and how the
//! outcome is reported.

use vstd::prelude::*;
use vstd::string::StringExecFns;
use crate::text::{decimal, decimal_string};

verus! {

/// Mathematical value of a [`Page`].
pub struct PageModel {
    pub command: Seq<char>,
    pub file: Seq<char>,
}

/// A man page: the command it documents and the name of its file.
#[derive(Debug, PartialEq, Eq)]
pub struct Page {
    pub command: String,
    pub file: String,
}

impl DeepView for Page {
    type V = PageModel;

    open spec fn deep_view(&self) -> PageModel {
        PageModel { command: self.command@, file: self.file@ }
    }
}

/// The name of the file of the man page of the program.
pub open spec fn program_page(program: Seq<char>) -> Seq<char> {
    program + ".1"@
}

/// The name of the file of the man page of a subcommand.
pub open spec fn subcommand_page(program: Seq<char>, subcommand: Seq<char>) -> Seq<char> {
    program + "-"@ + subcommand + ".1"@
}

/// The man pages of a program and its subcommands: the page of the program
/// first, then one page for each subcommand, in order.
pub open spec fn pages_of(program: Seq<char>, subcommands: Seq<String>) -> Seq<PageModel> {
    Seq::new(
        subcommands.len() + 1,
        |i: int|
            if i == 0 {
                PageModel { command: program, file: program_page(program) }
            } else {
                PageModel {
                    command: subcommands[i - 1]@,
                    file: subcommand_page(program, subcommands[i - 1]@),
                }
            },
    )
}

/// The line that reports how many files of a kind were written where.
pub open spec fn summary_spec(count: nat, kind: Seq<char>, dir: Seq<char>) -> Seq<char> {
    decimal(count) + " "@ + kind + " successfully generated in "@ + dir
}

/// Writes the line that reports how many files of a kind were written where.
pub fn summary(count: usize, kind: &str, dir: &str) -> (line: String)
    ensures
        line@ == summary_spec(count as nat, kind@, dir@),
{
    let mut line = decimal_string(count as u64);
    line.append(" ");
    line.append(kind);
    line.append(" successfully generated in ");
    line.append(dir);
    line
}

/// The command that writes the man pages into a directory.
#[derive(Debug, PartialEq, Eq)]
pub struct ManualGenerateCommand {
    pub dir: String,
}

impl ManualGenerateCommand {
    /// The man pages to write for a program and its subcommands, with the
    /// names of their files in the directory.
    pub fn execute(&self, program: &str, subcommands: &Vec<String>) -> (pages: Vec<Page>)
        ensures
            pages.deep_view() == pages_of(program@, subcommands@),
    {
        let mut pages: Vec<Page> = Vec::new();
        let mut file = String::from_str(program);
        file.append(".1");
        pages.push(Page { command: String::from_str(program), file });
        let mut i: usize = 0;
        while i < subcommands.len()
            invariant
                i <= subcommands.len(),
                pages.len() == i + 1,
                forall|j: int|
                    0 <= j < pages.len() ==> (#[trigger] pages[j]).deep_view() == pages_of(
                        program@,
                        subcommands@,
                    )[j],
            decreases subcommands.len() - i,
        {
            let mut file = String::from_str(program);
            file.append("-");
            file.append(subcommands[i].as_str());
            file.append(".1");
            pages.push(Page { command: subcommands[i].clone(), file });
            i += 1;
        }
        assert(pages.deep_view() =~= pages_of(program@, subcommands@));
        pages
    }

    /// The line that reports how many man pages were written.
    pub fn report(&self, count: usize) -> (line: String)
        ensures
            line@ == summary_spec(count as nat, "man page(s)"@, self.dir@),
    {
        summary(count, "man page(s)", self.dir.as_str())
    }
}

/// The line that reports how many completion scripts were written where.
pub fn completions_report(count: usize, dir: &str) -> (line: String)
    ensures
        line@ == summary_spec(count as nat, "completion script(s)"@, dir@),
{
    summary(count, "completion script(s)", dir)
}

} // verus!
