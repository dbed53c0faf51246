//! The command line: from arguments to settings.

use crate::battery::{names_where, unread, DiscoveryError};
use crate::number::{i32_value, parse_i32};
use crate::settings::{handle_battery_names, Configuration, Settings, Timeout};
use crate::text::{chars_of, listed_names, push_text, string_of};
use vstd::prelude::*;

verus! {

/// The options that the program knows; a colon marks one that takes an
/// argument.
pub const OPTIONS: &'static str = "hvboeiw:c:d:f:W:C:D:F:n:s:a:I:";

/// One item of a scanned command line: an option with its argument, or the
/// scanner's complaint.
#[derive(Clone, Debug, PartialEq, Eq)]
pub enum Token {
    Opt { letter: char, argument: Option<String> },
    Fault { missing_argument: bool, detail: String },
}

/// A token as plain values.
pub enum TokenModel {
    Opt { letter: char, argument: Option<Seq<char>> },
    Fault { missing_argument: bool, detail: Seq<char> },
}

impl View for Token {
    type V = TokenModel;

    open spec fn view(&self) -> TokenModel {
        match *self {
            Token::Opt { letter, argument } => TokenModel::Opt {
                letter,
                argument: argument.deep_view(),
            },
            Token::Fault { missing_argument, detail } => TokenModel::Fault {
                missing_argument,
                detail: detail@,
            },
        }
    }
}

impl DeepView for Token {
    type V = TokenModel;

    open spec fn deep_view(&self) -> TokenModel {
        self@
    }
}

/// What `getopt::Parser`, made for the given arguments and option string,
/// yields item by item until it first yields nothing.
pub uninterp spec fn getopt_scan(args: Seq<Seq<char>>, optstring: Seq<char>) -> Seq<TokenModel>;

/// Makes a parser with `getopt::Parser::new` and collects what its `next`
/// yields, up to the first `None`: each `getopt::Opt` as it is, each
/// `getopt::Error` as whether its `kind` is `MissingArgument` and as the
/// message that it displays. Nothing is claimed of the tokens but that they
/// are what the parser yields; the parser looks at nothing but its two
/// arguments, so the same arguments give the same tokens.
#[verifier::external_body]
fn scan(args: &Vec<String>, optstring: &str) -> (r: Vec<Token>)
    ensures
        r.deep_view() == getopt_scan(args.deep_view(), optstring@),
{
    getopt::Parser::new(args, optstring)
        .map(|item| match item {
            Ok(getopt::Opt(letter, argument)) => Token::Opt { letter, argument },
            Err(e) => Token::Fault {
                missing_argument: e.kind() == getopt::ErrorKind::MissingArgument,
                detail: e.to_string(),
            },
        })
        .collect()
}

/// What the program was asked to do.
#[derive(Clone, Debug, PartialEq, Eq)]
pub enum Invocation {
    /// Monitor with these settings; `skipped` are the named batteries that
    /// were left out because the system lacks them.
    Run { settings: Settings, skipped: Vec<String> },
    /// Print the help text.
    Help,
    /// Print the version.
    Version,
}

/// An invocation as plain values.
pub enum Request {
    Run { settings: Configuration, skipped: Seq<Seq<char>> },
    Help,
    Version,
}

impl View for Invocation {
    type V = Request;

    open spec fn view(&self) -> Request {
        match *self {
            Invocation::Run { settings, skipped } => Request::Run {
                settings: settings@,
                skipped: skipped.deep_view(),
            },
            Invocation::Help => Request::Help,
            Invocation::Version => Request::Version,
        }
    }
}

/// Why the command line was not accepted.
#[derive(Clone, Debug, PartialEq, Eq)]
pub enum ArgError {
    /// The scanner met an unknown option or missed an argument.
    Scan { missing_argument: bool, detail: String },
    /// An option came in a form that the option string does not allow.
    Unexpected { letter: char },
    /// The argument of the option is not a number.
    Number { letter: char },
    /// A named battery is not among the system's devices.
    Battery { name: String },
}

/// An argument error as plain values.
pub enum ArgFault {
    Scan { missing_argument: bool, detail: Seq<char> },
    Unexpected { letter: char },
    Number { letter: char },
    Battery { name: Seq<char> },
}

impl View for ArgError {
    type V = ArgFault;

    open spec fn view(&self) -> ArgFault {
        match *self {
            ArgError::Scan { missing_argument, detail } => ArgFault::Scan {
                missing_argument,
                detail: detail@,
            },
            ArgError::Unexpected { letter } => ArgFault::Unexpected { letter },
            ArgError::Number { letter } => ArgFault::Number { letter },
            ArgError::Battery { name } => ArgFault::Battery { name: name@ },
        }
    }
}

/// The letter under which messages speak of a numeric option: the
/// option's own, but `m` for the interval.
pub open spec fn spoken_letter(letter: char) -> char {
    if letter == 's' {
        'm'
    } else {
        letter
    }
}

impl ArgFault {
    /// The error in words.
    pub open spec fn text(self) -> Seq<char> {
        match self {
            ArgFault::Scan { missing_argument, detail } => "Failed to parse args: "@ + detail,
            ArgFault::Unexpected { letter } => "Failed to parse args: unexpected option -"@
                + seq![letter],
            ArgFault::Number { letter } => "Error parsing argument for option "@
                + seq![spoken_letter(letter)],
            ArgFault::Battery { name } => "Battery "@ + name + " not found"@,
        }
    }
}

impl ArgError {
    /// The error in words.
    pub fn message(&self) -> (r: String)
        ensures
            r@ == self@.text(),
    {
        let mut line: Vec<char> = Vec::new();
        match self {
            ArgError::Scan { missing_argument, detail } => {
                push_text(&mut line, "Failed to parse args: ");
                push_text(&mut line, detail.as_str());
            },
            ArgError::Unexpected { letter } => {
                push_text(&mut line, "Failed to parse args: unexpected option -");
                line.push(*letter);
            },
            ArgError::Number { letter } => {
                push_text(&mut line, "Error parsing argument for option ");
                if *letter == 's' {
                    line.push('m');
                } else {
                    line.push(*letter);
                }
            },
            ArgError::Battery { name } => {
                push_text(&mut line, "Battery ");
                push_text(&mut line, name.as_str());
                push_text(&mut line, " not found");
            },
        }
        assert(line@ =~= self@.text());
        string_of(&line)
    }
}

/// What follows an option.
#[derive(Clone, Copy, Debug, PartialEq, Eq, Structural)]
pub enum Step {
    /// Go on with the next option.
    Continue,
    /// Stop and print the help text.
    Help,
    /// Stop and print the version.
    Version,
}

/// The settings after an option, the batteries it skipped, and what
/// follows.
pub struct Applied {
    pub settings: Configuration,
    pub skipped: Seq<Seq<char>>,
    pub step: Step,
}

/// An option that only changes the settings.
pub open spec fn changed(settings: Configuration) -> Result<Applied, ArgFault> {
    Ok(Applied { settings, skipped: Seq::empty(), step: Step::Continue })
}

/// A numeric option: the number in the argument, or the fault of having
/// none.
pub open spec fn number_in(letter: char, argument: Option<Seq<char>>) -> Result<i32, ArgFault> {
    match argument {
        None => Err(ArgFault::Unexpected { letter }),
        Some(text) => match i32_value(text) {
            Some(v) => Ok(v),
            None => Err(ArgFault::Number { letter }),
        },
    }
}

/// A text option: the argument, or the fault of having none.
pub open spec fn text_in(letter: char, argument: Option<Seq<char>>) -> Result<Seq<char>, ArgFault> {
    match argument {
        None => Err(ArgFault::Unexpected { letter }),
        Some(text) => Ok(text),
    }
}

/// A flag: it must come without an argument.
pub open spec fn flag(
    letter: char,
    argument: Option<Seq<char>>,
    settings: Configuration,
    step: Step,
) -> Result<Applied, ArgFault> {
    match argument {
        None => Ok(Applied { settings, skipped: Seq::empty(), step }),
        Some(_) => Err(ArgFault::Unexpected { letter }),
    }
}

/// What one option does to the settings, given the names of the system's
/// devices.
pub open spec fn applied(
    settings: Configuration,
    letter: char,
    argument: Option<Seq<char>>,
    devices: Seq<Seq<char>>,
) -> Result<Applied, ArgFault> {
    if letter == 'h' {
        flag(letter, argument, settings, Step::Help)
    } else if letter == 'v' {
        flag(letter, argument, settings, Step::Version)
    } else if letter == 'b' {
        flag(letter, argument, Configuration { daemonize: true, ..settings }, Step::Continue)
    } else if letter == 'o' {
        flag(letter, argument, Configuration { run_once: true, ..settings }, Step::Continue)
    } else if letter == 'e' {
        flag(
            letter,
            argument,
            Configuration { notification_timeout: Timeout::Default, ..settings },
            Step::Continue,
        )
    } else if letter == 'i' {
        flag(letter, argument, Configuration { ignore_missing: true, ..settings }, Step::Continue)
    } else if letter == 'w' {
        match number_in(letter, argument) {
            Ok(v) => changed(Configuration { warning: Some(v), ..settings }),
            Err(e) => Err(e),
        }
    } else if letter == 'c' {
        match number_in(letter, argument) {
            Ok(v) => changed(Configuration { critical: Some(v), ..settings }),
            Err(e) => Err(e),
        }
    } else if letter == 'd' {
        match number_in(letter, argument) {
            Ok(v) => changed(Configuration { danger: Some(v), ..settings }),
            Err(e) => Err(e),
        }
    } else if letter == 'f' {
        match number_in(letter, argument) {
            Ok(v) => changed(Configuration { full: Some(v), ..settings }),
            Err(e) => Err(e),
        }
    } else if letter == 's' {
        match number_in(letter, argument) {
            Ok(v) => changed(Configuration { sleep_interval: v as int, ..settings }),
            Err(e) => Err(e),
        }
    } else if letter == 'W' {
        match text_in(letter, argument) {
            Ok(text) => changed(Configuration { warningmsg: text, ..settings }),
            Err(e) => Err(e),
        }
    } else if letter == 'C' {
        match text_in(letter, argument) {
            Ok(text) => changed(Configuration { criticalmsg: text, ..settings }),
            Err(e) => Err(e),
        }
    } else if letter == 'F' {
        match text_in(letter, argument) {
            Ok(text) => changed(Configuration { fullmsg: text, ..settings }),
            Err(e) => Err(e),
        }
    } else if letter == 'a' {
        match text_in(letter, argument) {
            Ok(text) => changed(Configuration { appname: text, ..settings }),
            Err(e) => Err(e),
        }
    } else if letter == 'D' {
        changed(Configuration { dangercmd: argument, ..settings })
    } else if letter == 'I' {
        changed(Configuration { icon: argument, ..settings })
    } else if letter == 'n' {
        match text_in(letter, argument) {
            Ok(list) => {
                let missing = names_where(listed_names(list), devices, false);
                if missing.len() > 0 && !settings.ignore_missing {
                    Err(ArgFault::Battery { name: missing[0] })
                } else {
                    Ok(
                        Applied {
                            settings: Configuration {
                                batteries: names_where(
                                    listed_names(list),
                                    devices,
                                    true,
                                ).map_values(|name: Seq<char>| unread(name)),
                                ..settings
                            },
                            skipped: missing,
                            step: Step::Continue,
                        },
                    )
                }
            },
            Err(e) => Err(e),
        }
    } else {
        Err(ArgFault::Unexpected { letter })
    }
}

/// Reads the number that a numeric option carries.
fn number_of(letter: char, argument: &Option<String>) -> (r: Result<i32, ArgError>)
    ensures
        match (r, number_in(letter, argument.deep_view())) {
            (Ok(v), Ok(w)) => v == w,
            (Err(e), Err(f)) => e@ == f,
            _ => false,
        },
{
    match argument {
        None => Err(ArgError::Unexpected { letter }),
        Some(text) => match parse_i32(&chars_of(text.as_str())) {
            Some(v) => Ok(v),
            None => Err(ArgError::Number { letter }),
        },
    }
}

/// Takes the text that a text option carries.
fn text_of(letter: char, argument: Option<String>) -> (r: Result<String, ArgError>)
    ensures
        match (r, text_in(letter, argument.deep_view())) {
            (Ok(v), Ok(w)) => v@ == w,
            (Err(e), Err(f)) => e@ == f,
            _ => false,
        },
{
    match argument {
        None => Err(ArgError::Unexpected { letter }),
        Some(text) => Ok(text),
    }
}

/// Applies one option to the settings, given the names of the system's
/// devices. On an error the settings are as they were.
///
/// On success it hands back what follows and the named batteries that were
/// skipped.
pub fn apply_option(
    settings: &mut Settings,
    letter: char,
    argument: Option<String>,
    devices: &Vec<String>,
) -> (r: Result<(Step, Vec<String>), ArgError>)
    ensures
        match (r, applied(old(settings)@, letter, argument.deep_view(), devices.deep_view())) {
            (Ok((step, skipped)), Ok(a)) => {
                &&& final(settings)@ == a.settings
                &&& skipped.deep_view() == a.skipped
                &&& step == a.step
            },
            (Err(e), Err(f)) => e@ == f && *final(settings) == *old(settings),
            _ => false,
        },
{
    let none: Vec<String> = Vec::new();
    assert(none.deep_view() =~= Seq::empty());
    if letter == 'h' || letter == 'v' || letter == 'b' || letter == 'o' || letter == 'e' || letter
        == 'i' {
        if argument.is_some() {
            return Err(ArgError::Unexpected { letter });
        }
        if letter == 'h' {
            return Ok((Step::Help, none));
        } else if letter == 'v' {
            return Ok((Step::Version, none));
        } else if letter == 'b' {
            settings.daemonize = true;
        } else if letter == 'o' {
            settings.run_once = true;
        } else if letter == 'e' {
            settings.notification_timeout = Timeout::Default;
        } else {
            settings.ignore_missing = true;
        }
        Ok((Step::Continue, none))
    } else if letter == 'w' || letter == 'c' || letter == 'd' || letter == 'f' || letter == 's' {
        let value = match number_of(letter, &argument) {
            Ok(v) => v,
            Err(e) => {
                return Err(e);
            },
        };
        if letter == 'w' {
            settings.warning = Some(value);
        } else if letter == 'c' {
            settings.critical = Some(value);
        } else if letter == 'd' {
            settings.danger = Some(value);
        } else if letter == 'f' {
            settings.full = Some(value);
        } else {
            settings.sleep_interval = value;
        }
        Ok((Step::Continue, none))
    } else if letter == 'W' || letter == 'C' || letter == 'F' || letter == 'a' {
        let text = match text_of(letter, argument) {
            Ok(t) => t,
            Err(e) => {
                return Err(e);
            },
        };
        if letter == 'W' {
            settings.warningmsg = text;
        } else if letter == 'C' {
            settings.criticalmsg = text;
        } else if letter == 'F' {
            settings.fullmsg = text;
        } else {
            settings.appname = text;
        }
        Ok((Step::Continue, none))
    } else if letter == 'D' {
        settings.dangercmd = argument;
        Ok((Step::Continue, none))
    } else if letter == 'I' {
        settings.icon = argument;
        Ok((Step::Continue, none))
    } else if letter == 'n' {
        let list = match text_of(letter, argument) {
            Ok(t) => t,
            Err(e) => {
                return Err(e);
            },
        };
        match handle_battery_names(settings, list.as_str(), devices) {
            Ok(skipped) => Ok((Step::Continue, skipped)),
            Err(DiscoveryError::NotFound { name }) => Err(ArgError::Battery { name }),
            Err(DiscoveryError::NoBatteriesFound) => Err(ArgError::Unexpected { letter }),
        }
    } else {
        Err(ArgError::Unexpected { letter })
    }
}

/// What the tokens, taken in order from the given settings, ask for: the
/// first fault among them, or the help or the version as soon as an option
/// asks for it, or a run with the settings that the options leave.
pub open spec fn requested(
    tokens: Seq<TokenModel>,
    settings: Configuration,
    skipped: Seq<Seq<char>>,
    devices: Seq<Seq<char>>,
) -> Result<Request, ArgFault>
    decreases tokens.len(),
{
    if tokens.len() == 0 {
        Ok(Request::Run { settings, skipped })
    } else {
        match tokens.first() {
            TokenModel::Fault { missing_argument, detail } => Err(
                ArgFault::Scan { missing_argument, detail },
            ),
            TokenModel::Opt { letter, argument } => match applied(
                settings,
                letter,
                argument,
                devices,
            ) {
                Err(e) => Err(e),
                Ok(a) => match a.step {
                    Step::Help => Ok(Request::Help),
                    Step::Version => Ok(Request::Version),
                    Step::Continue => requested(
                        tokens.drop_first(),
                        a.settings,
                        skipped + a.skipped,
                        devices,
                    ),
                },
            },
        }
    }
}

/// Applies the tokens of a scanned command line to the settings, one after
/// the other, given the names of the system's devices.
pub fn apply_tokens(start: Settings, tokens: &Vec<Token>, devices: &Vec<String>) -> (r: Result<
    Invocation,
    ArgError,
>)
    ensures
        match (r, requested(tokens.deep_view(), start@, Seq::empty(), devices.deep_view())) {
            (Ok(invocation), Ok(request)) => invocation@ == request,
            (Err(e), Err(f)) => e@ == f,
            _ => false,
        },
{
    let ghost goal = requested(tokens.deep_view(), start@, Seq::empty(), devices.deep_view());
    let mut settings = start;
    let mut skipped: Vec<String> = Vec::new();
    assert(skipped.deep_view() =~= Seq::empty());
    assert(tokens.deep_view().skip(0) =~= tokens.deep_view());
    let mut i: usize = 0;
    while i < tokens.len()
        invariant
            i <= tokens.len(),
            goal == requested(tokens.deep_view(), start@, Seq::empty(), devices.deep_view()),
            goal == requested(
                tokens.deep_view().skip(i as int),
                settings@,
                skipped.deep_view(),
                devices.deep_view(),
            ),
        decreases tokens.len() - i,
    {
        proof {
            let rest = tokens.deep_view().skip(i as int);
            assert(rest.first() == tokens[i as int]@);
            assert(rest.drop_first() =~= tokens.deep_view().skip(i + 1));
        }
        match &tokens[i] {
            Token::Fault { missing_argument, detail } => {
                return Err(
                    ArgError::Scan { missing_argument: *missing_argument, detail: detail.clone() },
                );
            },
            Token::Opt { letter, argument } => {
                match apply_option(&mut settings, *letter, argument.clone(), devices) {
                    Err(e) => {
                        return Err(e);
                    },
                    Ok((Step::Help, _)) => {
                        return Ok(Invocation::Help);
                    },
                    Ok((Step::Version, _)) => {
                        return Ok(Invocation::Version);
                    },
                    Ok((Step::Continue, more)) => {
                        append_names(&mut skipped, more);
                    },
                }
            },
        }
        i += 1;
    }
    Ok(Invocation::Run { settings, skipped })
}

/// Moves the names in `more` to the end of `names`.
fn append_names(names: &mut Vec<String>, more: Vec<String>)
    ensures
        final(names).deep_view() == old(names).deep_view() + more.deep_view(),
{
    let mut i: usize = 0;
    while i < more.len()
        invariant
            i <= more.len(),
            names.deep_view() == old(names).deep_view() + more.deep_view().take(i as int),
        decreases more.len() - i,
    {
        let ghost before = names.deep_view();
        names.push(more[i].clone());
        assert(names.deep_view() =~= before.push(more[i as int]@));
        assert(more.deep_view().take(i + 1) =~= more.deep_view().take(i as int).push(
            more[i as int]@,
        ));
        i += 1;
    }
    assert(more.deep_view().take(more.len() as int) =~= more.deep_view());
}

/// Reads the command line into settings, starting from the defaults, given
/// the names of the system's devices. The first argument is the program's
/// own name and is passed over.
pub fn parse_args(args: &Vec<String>, devices: &Vec<String>) -> (r: Result<Invocation, ArgError>)
    ensures
        match (
            r,
            requested(
                getopt_scan(args.deep_view(), OPTIONS@),
                Configuration::initial(),
                Seq::empty(),
                devices.deep_view(),
            ),
        ) {
            (Ok(invocation), Ok(request)) => invocation@ == request,
            (Err(e), Err(f)) => e@ == f,
            _ => false,
        },
{
    let tokens = scan(args, OPTIONS);
    apply_tokens(Settings::default(), &tokens, devices)
}

} // verus!
