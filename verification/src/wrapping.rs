//! Timing a whole function: the arguments that say how, and the wrapper
//! that opens a timer around the function's body.

use crate::level::Level;
use crate::message::Emitted;
use crate::text::{
    find_marker, locate_marker, lowercase, same_chars, to_ascii_lowercase, to_chars, trim, trim_bounds, Strip,
};
use crate::timer::{scope_records, LoggingTimer, TimerView};
use vstd::pervasive::unreached;
use vstd::prelude::*;
use vstd::string::*;

verus! {

/// One token of the argument list of a timing attribute. Only literals
/// carry a text that matters: the literal as it was written, quotes
/// included.
#[derive(Debug)]
pub enum MacroToken {
    Literal(String),
    Ident,
    Punct,
    Group,
}

/// What the first argument of a timing attribute may ask for: no timer at
/// all, or a timer at some level.
#[derive(Clone, Copy, Debug, PartialEq, Eq, Structural)]
pub enum Setting {
    Never,
    At(Level),
}

/// Why an argument list was turned down.
#[derive(Debug)]
pub enum MacroError {
    /// A token that should have been a string literal is none.
    NotALiteral,
    /// More than two string literals were given; this is their number.
    TooManyArguments(usize),
    /// Of two arguments the first holds the marker `{}`: it is a pattern
    /// where the level belongs.
    PatternBeforeLevel(String),
    /// Of two arguments the first names no level.
    UnrecognizedLevel(String),
}

/// A `MacroError` as proofs see it.
pub enum Fault {
    NotALiteral,
    TooManyArguments(nat),
    PatternBeforeLevel(Seq<char>),
    UnrecognizedLevel(Seq<char>),
}

impl View for MacroError {
    type V = Fault;

    open spec fn view(&self) -> Fault {
        match self {
            MacroError::NotALiteral => Fault::NotALiteral,
            MacroError::TooManyArguments(n) => Fault::TooManyArguments(*n as nat),
            MacroError::PatternBeforeLevel(s) => Fault::PatternBeforeLevel(s@),
            MacroError::UnrecognizedLevel(s) => Fault::UnrecognizedLevel(s@),
        }
    }
}

impl Fault {
    /// The words in which the fault is reported. They name the argument
    /// that was turned down and say what was expected.
    pub open spec fn text(self) -> Seq<char> {
        match self {
            Fault::NotALiteral => "Invalid argument. Specify at most two string literal arguments, for log level and name pattern, in that order."@,
            Fault::TooManyArguments(_) => "Too many arguments. Specify at most two string literal arguments, for log level and name pattern."@,
            Fault::PatternBeforeLevel(s) => "Invalid first argument: "@ + s
                + ". Specify the log level as the first argument and the pattern as the second."@,
            Fault::UnrecognizedLevel(s) => "Unrecognized log level: "@ + s
                + ". Specify the log level as the first argument and the pattern as the second."@,
        }
    }
}

impl MacroError {
    /// The words in which the error is reported.
    pub fn describe(&self) -> (r: String)
        ensures
            r@ == self@.text(),
    {
        match self {
            MacroError::NotALiteral => String::from_str(
                "Invalid argument. Specify at most two string literal arguments, for log level and name pattern, in that order.",
            ),
            MacroError::TooManyArguments(_) => String::from_str(
                "Too many arguments. Specify at most two string literal arguments, for log level and name pattern.",
            ),
            MacroError::PatternBeforeLevel(s) => {
                let mut out = String::from_str("Invalid first argument: ");
                out.append(s.as_str());
                out.append(". Specify the log level as the first argument and the pattern as the second.");
                out
            },
            MacroError::UnrecognizedLevel(s) => {
                let mut out = String::from_str("Unrecognized log level: ");
                out.append(s.as_str());
                out.append(". Specify the log level as the first argument and the pattern as the second.");
                out
            },
        }
    }
}

impl Setting {
    /// The name by which an argument asks for this setting.
    pub open spec fn name(self) -> Seq<char> {
        match self {
            Setting::Never => "never"@,
            Setting::At(level) => level.name(),
        }
    }

    /// The name by which an argument asks for this setting.
    pub fn as_str(self) -> (r: &'static str)
        ensures
            r@ == self.name(),
    {
        match self {
            Setting::Never => "never",
            Setting::At(level) => level.as_str(),
        }
    }
}

/// The setting that `name` asks for, if it is the name of one. Names are in
/// lower case.
pub open spec fn setting_named(name: Seq<char>) -> Option<Setting> {
    if name == Setting::At(Level::Error).name() {
        Some(Setting::At(Level::Error))
    } else if name == Setting::At(Level::Warn).name() {
        Some(Setting::At(Level::Warn))
    } else if name == Setting::At(Level::Info).name() {
        Some(Setting::At(Level::Info))
    } else if name == Setting::At(Level::Debug).name() {
        Some(Setting::At(Level::Debug))
    } else if name == Setting::At(Level::Trace).name() {
        Some(Setting::At(Level::Trace))
    } else if name == Setting::Never.name() {
        Some(Setting::Never)
    } else {
        None
    }
}

/// The setting that `name` asks for, if it is the name of one.
pub fn parse_setting(name: &Vec<char>) -> (r: Option<Setting>)
    ensures
        r == setting_named(name@),
        r matches Some(setting) ==> setting.name() == name@,
{
    let candidates = [
        Setting::At(Level::Error),
        Setting::At(Level::Warn),
        Setting::At(Level::Info),
        Setting::At(Level::Debug),
        Setting::At(Level::Trace),
        Setting::Never,
    ];
    let mut i: usize = 0;
    while i < 6
        invariant
            i <= 6,
            candidates@ == seq![
                Setting::At(Level::Error),
                Setting::At(Level::Warn),
                Setting::At(Level::Info),
                Setting::At(Level::Debug),
                Setting::At(Level::Trace),
                Setting::Never,
            ],
            forall|k: int| 0 <= k < i ==> candidates@[k].name() != name@,
        decreases 6 - i,
    {
        let candidate = candidates[i];
        let spelled = to_chars(candidate.as_str());
        if same_chars(name, &spelled) {
            return Some(candidate);
        }
        i += 1;
    }
    None
}

/// The text of a string literal: what stands between its quotes, without
/// the blanks around it.
pub open spec fn literal_text(literal: Seq<char>) -> Seq<char> {
    trim(trim(trim(literal, Strip::Blanks), Strip::Quotes), Strip::Blanks)
}

/// The text of a string literal: what stands between its quotes, without
/// the blanks around it.
pub fn strip_literal(literal: &str) -> (r: String)
    ensures
        r@ == literal_text(literal@),
{
    let chars = to_chars(literal);
    assert(chars@.subrange(0, chars@.len() as int) =~= chars@);
    let outer = trim_bounds(&chars, 0, chars.len(), Strip::Blanks);
    let quoted = trim_bounds(&chars, outer.0, outer.1, Strip::Quotes);
    let inner = trim_bounds(&chars, quoted.0, quoted.1, Strip::Blanks);
    String::from_str(literal.substring_char(inner.0, inner.1))
}

/// The text of a token that is a string literal. A token of another kind
/// has no text: `check_literal` tells the two apart.
pub fn extract_literal(token: &MacroToken) -> (r: String)
    requires
        token is Literal,
    ensures
        r@ == literal_text(token->Literal_0@),
{
    match token {
        MacroToken::Literal(s) => strip_literal(s.as_str()),
        _ => unreached(),
    }
}

/// Whether `token` is a string literal, and the error to report where it
/// is none.
pub fn check_literal(token: &MacroToken) -> (r: Result<(), MacroError>)
    ensures
        r is Ok <==> token is Literal,
        r matches Err(e) ==> e@ == Fault::NotALiteral,
{
    match token {
        MacroToken::Literal(_) => Ok(()),
        _ => Err(MacroError::NotALiteral),
    }
}

/// The literals among `tokens`, each as it was written, in order.
pub open spec fn literals_of(tokens: Seq<MacroToken>) -> Seq<Seq<char>>
    decreases tokens.len(),
{
    if tokens.len() == 0 {
        Seq::empty()
    } else {
        match tokens.last() {
            MacroToken::Literal(s) => literals_of(tokens.drop_last()).push(s@),
            _ => literals_of(tokens.drop_last()),
        }
    }
}

/// Why a list of literal arguments is turned down, if it is: there are
/// more than two, or there are two and the first is a pattern, or names no
/// level in any casing.
pub open spec fn argument_fault(literals: Seq<Seq<char>>) -> Option<Fault> {
    if literals.len() > 2 {
        Some(Fault::TooManyArguments(literals.len()))
    } else if literals.len() == 2 {
        let first = literal_text(literals[0]);
        if find_marker(first) is Some {
            Some(Fault::PatternBeforeLevel(first))
        } else if setting_named(to_ascii_lowercase(first)) is None {
            Some(Fault::UnrecognizedLevel(first))
        } else {
            None
        }
    } else {
        None
    }
}

/// The level name and the name pattern that a list of literal arguments
/// asks for. No argument asks for level `debug` and pattern `{}`. A single
/// argument is the level if it names one in any casing, else the pattern.
/// Of two arguments the first is the level and the second the pattern, an
/// empty one standing for `{}`. The level comes back in lower case.
pub open spec fn level_and_pattern(literals: Seq<Seq<char>>) -> (Seq<char>, Seq<char>)
    recommends
        argument_fault(literals) is None,
{
    if literals.len() == 0 {
        ("debug"@, "{}"@)
    } else {
        let first = literal_text(literals[0]);
        let lower = to_ascii_lowercase(first);
        if literals.len() == 1 {
            if setting_named(lower) is Some {
                (lower, "{}"@)
            } else {
                ("debug"@, first)
            }
        } else {
            let second = literal_text(literals[1]);
            (
                lower,
                if second.len() == 0 {
                    "{}"@
                } else {
                    second
                },
            )
        }
    }
}

/// The string literals among `tokens`, each as it was written.
fn collect_literals(tokens: &Vec<MacroToken>) -> (literals: Vec<String>)
    ensures
        literals@.len() == literals_of(tokens@).len(),
        forall|k: int| 0 <= k < literals@.len() ==> (#[trigger] literals@[k])@ == literals_of(tokens@)[k],
{
    let mut literals: Vec<String> = Vec::new();
    let mut i: usize = 0;
    while i < tokens.len()
        invariant
            i <= tokens@.len(),
            literals@.len() == literals_of(tokens@.subrange(0, i as int)).len(),
            forall|k: int|
                0 <= k < literals@.len() ==> (#[trigger] literals@[k])@ == literals_of(
                    tokens@.subrange(0, i as int),
                )[k],
        decreases tokens@.len() - i,
    {
        assert(tokens@.subrange(0, i + 1).drop_last() =~= tokens@.subrange(0, i as int));
        assert(tokens@.subrange(0, i + 1).last() == tokens@[i as int]);
        match &tokens[i] {
            MacroToken::Literal(s) => {
                literals.push(s.clone());
            },
            _ => {},
        }
        i += 1;
    }
    assert(tokens@.subrange(0, tokens@.len() as int) =~= tokens@);
    literals
}

/// Whether the arguments of a timing attribute can be read, and the error
/// to report where they cannot. Tokens that are no literals, such as the
/// commas between the arguments, are passed over.
pub fn check_arguments(metadata: &Vec<MacroToken>) -> (r: Result<(), MacroError>)
    ensures
        r is Ok <==> argument_fault(literals_of(metadata@)) is None,
        r matches Err(e) ==> argument_fault(literals_of(metadata@)) == Some(e@),
{
    let literals = collect_literals(metadata);
    if literals.len() > 2 {
        return Err(MacroError::TooManyArguments(literals.len()));
    }
    if literals.len() == 2 {
        let first = strip_literal(literals[0].as_str());
        let first_chars = to_chars(first.as_str());
        if locate_marker(&first_chars).is_some() {
            return Err(MacroError::PatternBeforeLevel(first));
        }
        let lower = lowercase(&first_chars);
        if parse_setting(&lower).is_none() {
            return Err(MacroError::UnrecognizedLevel(first));
        }
    }
    Ok(())
}

/// Reads the arguments of a timing attribute: the name of the level, in
/// lower case, and the pattern for the timer's name. Tokens that are no
/// literals are passed over. Arguments that `check_arguments` turns down
/// are not taken.
pub fn get_log_level_and_name_pattern(metadata: &Vec<MacroToken>) -> (r: (String, String))
    requires
        argument_fault(literals_of(metadata@)) is None,
    ensures
        (r.0@, r.1@) == level_and_pattern(literals_of(metadata@)),
        setting_named(r.0@) is Some,
{
    let literals = collect_literals(metadata);
    if literals.len() == 0 {
        return (String::from_str("debug"), String::from_str("{}"));
    }
    let first = strip_literal(literals[0].as_str());
    let first_chars = to_chars(first.as_str());
    let lower = lowercase(&first_chars);
    let setting = parse_setting(&lower);
    if literals.len() == 1 {
        return match setting {
            Some(setting) => (String::from_str(setting.as_str()), String::from_str("{}")),
            None => (String::from_str("debug"), first),
        };
    }
    match setting {
        Some(setting) => {
            let second = strip_literal(literals[1].as_str());
            if second.as_str().is_empty() {
                (String::from_str(setting.as_str()), String::from_str("{}"))
            } else {
                (String::from_str(setting.as_str()), second)
            }
        },
        None => unreached(),
    }
}

/// The name of the timer for a function: the pattern with its first
/// marker `{}` replaced by the function's name and a pair of parentheses. A
/// pattern without a marker is the name as it stands.
pub open spec fn timer_name(name_pattern: Seq<char>, fn_name: Seq<char>) -> Seq<char> {
    match find_marker(name_pattern) {
        Some(i) => name_pattern.subrange(0, i) + fn_name + "()"@ + name_pattern.subrange(
            i + 2,
            name_pattern.len() as int,
        ),
        None => name_pattern,
    }
}

/// The name of the timer for the function `fn_name`.
pub fn get_timer_name(name_pattern: &str, fn_name: &str) -> (r: String)
    ensures
        r@ == timer_name(name_pattern@, fn_name@),
{
    let chars = to_chars(name_pattern);
    match locate_marker(&chars) {
        Some(i) => {
            let mut out = String::from_str(name_pattern.substring_char(0, i));
            out.append(fn_name);
            out.append("()");
            out.append(name_pattern.substring_char(i + 2, chars.len()));
            out
        },
        None => String::from_str(name_pattern),
    }
}

/// How a function is timed: not at all, or by a timer with a level and a
/// name that announces its start or does not.
#[derive(Debug)]
pub enum Instrumentation {
    Never,
    Timed { level: Level, name: String, announce: bool },
}

/// An `Instrumentation` as proofs see it.
pub enum Plan {
    Never,
    Timed { level: Level, name: Seq<char>, announce: bool },
}

impl View for Instrumentation {
    type V = Plan;

    open spec fn view(&self) -> Plan {
        match self {
            Instrumentation::Never => Plan::Never,
            Instrumentation::Timed { level, name, announce } => Plan::Timed {
                level: *level,
                name: name@,
                announce: *announce,
            },
        }
    }
}

/// How the function `fn_name` is timed under an attribute with the literal
/// arguments `literals`: not at all where the level is `never`, else by a
/// timer at that level whose name is made from the pattern.
pub open spec fn planned(literals: Seq<Seq<char>>, fn_name: Seq<char>, announce: bool) -> Plan
    recommends
        argument_fault(literals) is None,
{
    let (level, pattern) = level_and_pattern(literals);
    match setting_named(level) {
        Some(Setting::At(level)) => Plan::Timed { level, name: timer_name(pattern, fn_name), announce },
        Some(Setting::Never) => Plan::Never,
        None => Plan::Never,
    }
}

/// The level that comes out of accepted arguments always names a setting.
pub proof fn accepted_arguments_name_a_setting(literals: Seq<Seq<char>>)
    requires
        argument_fault(literals) is None,
    ensures
        setting_named(level_and_pattern(literals).0) is Some,
{
}

/// Reads the arguments and names the timer.
fn instrument(metadata: &Vec<MacroToken>, fn_name: &str, announce: bool) -> (r: Instrumentation)
    requires
        argument_fault(literals_of(metadata@)) is None,
    ensures
        r@ == planned(literals_of(metadata@), fn_name@, announce),
{
    let (level, name_pattern) = get_log_level_and_name_pattern(metadata);
    let spelled = to_chars(level.as_str());
    match parse_setting(&spelled) {
        Some(Setting::Never) => Instrumentation::Never,
        Some(Setting::At(level)) => {
            let name = get_timer_name(name_pattern.as_str(), fn_name);
            Instrumentation::Timed { level, name, announce }
        },
        None => unreached(),
    }
}

/// Times the function `fn_name` with a timer that logs a message when the
/// function ends. `metadata` holds the arguments of the attribute: at most
/// two string literals, the level and the pattern for the timer's name.
/// The level `never` switches the timing off. Arguments that
/// `check_arguments` turns down are not taken.
pub fn time(metadata: &Vec<MacroToken>, fn_name: &str) -> (r: Instrumentation)
    requires
        argument_fault(literals_of(metadata@)) is None,
    ensures
        r@ == planned(literals_of(metadata@), fn_name@, false),
{
    instrument(metadata, fn_name, false)
}

/// Times the function `fn_name` with a timer that logs one message when
/// the function starts and one when it ends. The arguments are those of
/// `time`.
pub fn stime(metadata: &Vec<MacroToken>, fn_name: &str) -> (r: Instrumentation)
    requires
        argument_fault(literals_of(metadata@)) is None,
    ensures
        r@ == planned(literals_of(metadata@), fn_name@, true),
{
    instrument(metadata, fn_name, true)
}

/// The records that the timer of one call has logged under `plan` by the
/// time the call returns: none where the function is never timed, else
/// those of a scope around the call.
pub open spec fn wrapper_records(plan: Plan, file: Seq<char>, module: Seq<char>, line: u32, records: Seq<Emitted>) -> bool {
    match plan {
        Plan::Never => records.len() == 0,
        Plan::Timed { level, name, announce } => scope_records(
            announce,
            file,
            module,
            line,
            name,
            None,
            level,
            records,
        ),
    }
}

impl Instrumentation {
    /// Opens the timer for one call of the function, at the place given.
    /// Where the function is never timed there is no timer.
    pub fn open<'a>(&'a self, file: &'static str, module: &'static str, line: u32) -> (r: Option<
        LoggingTimer<'a>,
    >)
        ensures
            self@ is Never ==> r is None,
            r matches Some(timer) ==> self@ matches Plan::Timed { level, name, announce } && timer@.wf()
                && exists|announced: bool|
                (announced ==> announce) && timer@ == (#[trigger] TimerView::opened(
                    timer@.start_time,
                    file@,
                    module@,
                    line,
                    name,
                    None,
                    level,
                ).announced(announced)),
    {
        match self {
            Instrumentation::Never => None,
            Instrumentation::Timed { level, name, announce } => {
                if *announce {
                    LoggingTimer::with_start_message(file, module, line, name.as_str(), None, *level)
                } else {
                    let r = LoggingTimer::new(file, module, line, name.as_str(), None, *level);
                    proof {
                        if r is Some {
                            let fresh = TimerView::opened(
                                r->0@.start_time,
                                file@,
                                module@,
                                line,
                                name@,
                                None,
                                *level,
                            );
                            assert(r->0@ == fresh.announced(false));
                        }
                    }
                    r
                }
            },
        }
    }

    /// Runs `body` under the timer: opens it, calls `body`, finishes the
    /// timer and hands back what `body` returned, together with the
    /// records that the timer has logged. Where the function is never
    /// timed, this only calls `body`.
    pub fn run<R, F: FnOnce() -> R>(&self, file: &'static str, module: &'static str, line: u32, body: F) -> (r: (
        R,
        Ghost<Seq<Emitted>>,
    ))
        requires
            body.requires(()),
        ensures
            body.ensures((), r.0),
            wrapper_records(self@, file@, module@, line, r.1@),
    {
        match self {
            Instrumentation::Never => (body(), Ghost(Seq::empty())),
            Instrumentation::Timed { level, name, announce } => LoggingTimer::scope(
                *announce,
                file,
                module,
                line,
                name.as_str(),
                None,
                *level,
                body,
            ),
        }
    }
}

} // verus!
