//! From a typed line to a command, from a command to the handler that serves
//! it, and from the handler to the program it runs and the way its text is
//! shown.

use vstd::prelude::*;
use crate::text::{
    break_at_hyphens, hyphens_to_newlines, interleaved, is_gap, is_word, join, joined, same_text,
    split_words, texts, words, words_of_interleaved,
};

verus! {

/// A typed line taken apart: the command's name and three parameters. A
/// parameter that was not typed is empty.
#[derive(Debug)]
pub struct ParsedCommand {
    pub name: String,
    pub param1: String,
    pub param2: String,
    pub param3: String,
}

impl View for ParsedCommand {
    type V = Seq<Seq<char>>;

    /// The four fields in order: the name, then the parameters.
    open spec fn view(&self) -> Seq<Seq<char>> {
        seq![self.name@, self.param1@, self.param2@, self.param3@]
    }
}

/// The first four of `tokens`, with an empty text in place of each one that
/// is missing. What follows the fourth is left out.
pub open spec fn four_fields(tokens: Seq<Seq<char>>) -> Seq<Seq<char>> {
    Seq::new(
        4,
        |i: int|
            if i < tokens.len() {
                tokens[i]
            } else {
                Seq::empty()
            },
    )
}

fn field(tokens: &Vec<String>, i: usize) -> (s: String)
    ensures
        s@ == if i < tokens.len() {
            tokens[i as int]@
        } else {
            Seq::empty()
        },
{
    if i < tokens.len() {
        tokens[i].clone()
    } else {
        String::new()
    }
}

/// Takes a typed line apart at white space: the first word is the command's
/// name, the next three are its parameters.
pub fn parse(line: &str) -> (cmd: ParsedCommand)
    ensures
        cmd@ == four_fields(words(line@)),
{
    let tokens = split_words(line);
    ParsedCommand {
        name: field(&tokens, 0),
        param1: field(&tokens, 1),
        param2: field(&tokens, 2),
        param3: field(&tokens, 3),
    }
}

/// However many words a line holds, and whatever white space stands between
/// them, it parses to four fields: its first four words in order, with an
/// empty field for each word that is missing. Words behind the fourth are
/// dropped.
pub proof fn parse_takes_first_four(tokens: Seq<Seq<char>>, gaps: Seq<Seq<char>>)
    requires
        gaps.len() == tokens.len() + 1,
        forall|i: int| 0 <= i < tokens.len() ==> is_word(#[trigger] tokens[i]),
        forall|i: int| 0 <= i < gaps.len() ==> is_gap(#[trigger] gaps[i]),
        forall|i: int| 0 < i < tokens.len() ==> (#[trigger] gaps[i]).len() > 0,
    ensures
        four_fields(words(interleaved(tokens, gaps))).len() == 4,
        forall|i: int|
            0 <= i < 4 ==> #[trigger] four_fields(words(interleaved(tokens, gaps)))[i] == if i
                < tokens.len() {
                tokens[i]
            } else {
                Seq::<char>::empty()
            },
{
    words_of_interleaved(tokens, gaps);
}

/// Parsing is a function of the line: two commands parsed from the same line
/// agree in every field.
pub proof fn parse_is_deterministic(line: Seq<char>, first: ParsedCommand, second: ParsedCommand)
    requires
        first@ == four_fields(words(line)),
        second@ == four_fields(words(line)),
    ensures
        first.name@ == second.name@,
        first.param1@ == second.param1@,
        first.param2@ == second.param2@,
        first.param3@ == second.param3@,
{
}

/// The handlers that a command can be routed to.
#[derive(Clone, Copy, Debug, PartialEq, Eq, Structural)]
pub enum Handler {
    /// Looks a word up in the dictionary.
    Dictionary,
    /// Converts an amount from one currency to another.
    Rate,
    /// Evaluates an arithmetic expression.
    Calculator,
    /// Reads a text aloud.
    Speech,
    /// Shows the weather forecast for a place.
    Weather,
    /// Shows the time in the cities of the zone table.
    WorldClock,
    /// Opens a web search in the browser.
    Search,
    /// Runs a program named on the line.
    Run,
}

/// The handler that serves the command called `name`. A name that is no
/// keyword goes to `Run`.
pub open spec fn handler_of(name: Seq<char>) -> Handler {
    if name == "def"@ {
        Handler::Dictionary
    } else if name == "rate"@ {
        Handler::Rate
    } else if name == "calc"@ {
        Handler::Calculator
    } else if name == "say"@ {
        Handler::Speech
    } else if name == "wea"@ {
        Handler::Weather
    } else if name == "time"@ {
        Handler::WorldClock
    } else if name == ">"@ {
        Handler::Search
    } else {
        Handler::Run
    }
}

/// Routes a command by its name.
pub fn route(name: &str) -> (handler: Handler)
    ensures
        handler == handler_of(name@),
{
    if same_text(name, "def") {
        Handler::Dictionary
    } else if same_text(name, "rate") {
        Handler::Rate
    } else if same_text(name, "calc") {
        Handler::Calculator
    } else if same_text(name, "say") {
        Handler::Speech
    } else if same_text(name, "wea") {
        Handler::Weather
    } else if same_text(name, "time") {
        Handler::WorldClock
    } else if same_text(name, ">") {
        Handler::Search
    } else {
        Handler::Run
    }
}

/// A program to run and the arguments to run it with.
#[derive(Debug)]
pub struct ExternalCommand {
    pub program: String,
    pub args: Vec<String>,
}

impl View for ExternalCommand {
    type V = (Seq<char>, Seq<Seq<char>>);

    /// The program's name, then its arguments in order.
    open spec fn view(&self) -> (Seq<char>, Seq<Seq<char>>) {
        (self.program@, texts(self.args@))
    }
}

/// The program that `handler` runs for the command with fields `cmd`, and its
/// arguments; `None` for a handler that runs no program.
pub open spec fn command_line(
    handler: Handler,
    cmd: Seq<Seq<char>>,
) -> Option<(Seq<char>, Seq<Seq<char>>)> {
    match handler {
        Handler::Dictionary => Some(("sdcv"@, seq!["-jne"@, cmd[1]])),
        Handler::Weather => Some(
            ("ansiweather"@, seq!["-l"@, cmd[1], "-f"@, "5"@, "-a"@, "true"@, "-s"@, "true"@]),
        ),
        Handler::Speech => Some(("trans"@, seq!["-speak"@, cmd[1], ":zh-CN"@])),
        Handler::Search => Some(("firefox"@, seq!["https://www.google.com/search?q="@ + cmd[1]])),
        Handler::Run => Some((cmd[1], seq![cmd[2]])),
        Handler::Rate | Handler::Calculator | Handler::WorldClock => None,
    }
}

/// What a handler needs from outside before its text can be prepared.
#[derive(Debug)]
pub enum Request {
    /// Run the program and take what it writes.
    Run(ExternalCommand),
    /// Run the lookup tool and read the entries that it writes.
    Lookup(ExternalCommand),
    /// Fetch the exchange rates.
    Rates,
    /// Evaluate the expression.
    Evaluate(String),
    /// Read the clock.
    Clock,
}

/// Says what `handler` needs from outside to serve `cmd`: the dictionary has
/// the lookup tool run, the calculator has the first parameter evaluated, the
/// currency handler needs the rates and the world clock the time; every other
/// handler has its program run. The parameters go into a command line as they
/// were typed; the search query is put behind the search address without
/// escaping.
pub fn request(handler: Handler, cmd: &ParsedCommand) -> (r: Request)
    ensures
        match handler {
            Handler::Dictionary => r matches Request::Lookup(c) && command_line(handler, cmd@)
                == Some(c@),
            Handler::Rate => r is Rates,
            Handler::Calculator => r matches Request::Evaluate(e) && e@ == cmd@[1],
            Handler::WorldClock => r is Clock,
            _ => r matches Request::Run(c) && command_line(handler, cmd@) == Some(c@),
        },
{
    let mut args: Vec<String> = Vec::new();
    match handler {
        Handler::Dictionary => {
            args.push("-jne".to_owned());
            args.push(cmd.param1.clone());
            Request::Lookup(ExternalCommand { program: "sdcv".to_owned(), args })
        },
        Handler::Rate => Request::Rates,
        Handler::Calculator => Request::Evaluate(cmd.param1.clone()),
        Handler::Speech => {
            args.push("-speak".to_owned());
            args.push(cmd.param1.clone());
            args.push(":zh-CN".to_owned());
            Request::Run(ExternalCommand { program: "trans".to_owned(), args })
        },
        Handler::Weather => {
            args.push("-l".to_owned());
            args.push(cmd.param1.clone());
            args.push("-f".to_owned());
            args.push("5".to_owned());
            args.push("-a".to_owned());
            args.push("true".to_owned());
            args.push("-s".to_owned());
            args.push("true".to_owned());
            Request::Run(ExternalCommand { program: "ansiweather".to_owned(), args })
        },
        Handler::WorldClock => Request::Clock,
        Handler::Search => {
            args.push("https://www.google.com/search?q=".to_owned().concat(cmd.param1.as_str()));
            Request::Run(ExternalCommand { program: "firefox".to_owned(), args })
        },
        Handler::Run => {
            args.push(cmd.param2.clone());
            Request::Run(ExternalCommand { program: cmd.param1.clone(), args })
        },
    }
}

/// A handler's text and where it goes: written to standard output, shown in
/// the picker, both, or neither (then it is only handed back).
#[derive(Debug)]
pub struct Delivery {
    pub text: String,
    pub print: bool,
    pub prompt: bool,
}

impl View for Delivery {
    type V = (Seq<char>, bool, bool);

    /// The text, whether it is printed, and whether it is shown in the picker.
    open spec fn view(&self) -> (Seq<char>, bool, bool) {
        (self.text@, self.print, self.prompt)
    }
}

/// Whether the text of `handler` is broken into lines at its hyphens.
pub open spec fn breaks_lines(handler: Handler) -> bool {
    handler is Weather || handler is Speech
}

/// Whether the text of `handler` is written to standard output.
pub open spec fn prints(handler: Handler) -> bool {
    handler is Weather || handler is Speech
}

/// Whether the text of `handler` is shown in the picker.
pub open spec fn prompts(handler: Handler) -> bool {
    handler is Dictionary || handler is Rate || handler is Calculator || handler is Weather
        || handler is WorldClock
}

/// The delivery of `text` for `handler`: the text, broken into lines where
/// the handler has it so, and where it goes.
pub open spec fn delivery_of(handler: Handler, text: Seq<char>) -> (Seq<char>, bool, bool) {
    (
        if breaks_lines(handler) {
            hyphens_to_newlines(text)
        } else {
            text
        },
        prints(handler),
        prompts(handler),
    )
}

/// Prepares the text that `handler` has obtained for display. The weather
/// report and the spoken text are broken into lines at their hyphens; every
/// other text stays as it is.
pub fn deliver(handler: Handler, text: &str) -> (d: Delivery)
    ensures
        d@ == delivery_of(handler, text@),
{
    match handler {
        Handler::Weather => Delivery { text: break_at_hyphens(text), print: true, prompt: true },
        Handler::Speech => Delivery { text: break_at_hyphens(text), print: true, prompt: false },
        Handler::Dictionary | Handler::Rate | Handler::Calculator | Handler::WorldClock => {
            Delivery { text: text.to_owned(), print: false, prompt: true }
        },
        Handler::Search | Handler::Run => {
            Delivery { text: text.to_owned(), print: false, prompt: false }
        },
    }
}

/// The entries of the opening menu, in the order in which they are shown.
pub open spec fn menu_entries() -> Seq<Seq<char>> {
    seq!["# "@, "> "@, "def"@, "calc"@, "rate"@, "say"@, "wea"@, "time"@]
}

/// The opening menu: one entry to a line.
pub fn menu() -> (content: String)
    ensures
        content@ == joined(menu_entries(), "\n"@),
{
    let mut entries: Vec<String> = Vec::new();
    entries.push("# ".to_owned());
    entries.push("> ".to_owned());
    entries.push("def".to_owned());
    entries.push("calc".to_owned());
    entries.push("rate".to_owned());
    entries.push("say".to_owned());
    entries.push("wea".to_owned());
    entries.push("time".to_owned());
    assert(texts(entries@) =~= menu_entries());
    join(&entries, "\n")
}

/// The picker and its flags: a list at the bottom of the screen, twenty lines
/// at most, in a fixed font.
pub fn picker_command() -> (c: ExternalCommand)
    ensures
        c@ == ("dmenu"@, seq!["-b"@, "-l"@, "20"@, "-fn"@, "Noto Sans Mono CJK SC:size=10"@]),
{
    let mut args: Vec<String> = Vec::new();
    args.push("-b".to_owned());
    args.push("-l".to_owned());
    args.push("20".to_owned());
    args.push("-fn".to_owned());
    args.push("Noto Sans Mono CJK SC:size=10".to_owned());
    ExternalCommand { program: "dmenu".to_owned(), args }
}

} // verus!
