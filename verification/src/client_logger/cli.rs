//! The client logger's command line.
//!
//! Arguments after the program name are options: `--locations <CITY>` (or
//! `-l`, repeatable, at least once), `--service-url <URL>` (or `-s`),
//! `--hemrs-url <URL>` (or `-r`), `--log-level <LEVEL>` and the switch
//! `--store-lightning`. A long option may carry its value after `=`, a short
//! one right after it (`-lOslo`) or after `=` (`-l=Oslo`). A value may not
//! look like an option, and an option other than `--locations` may appear
//! once. `--help` (or `-h`) asks for the usage; `--` ends the options, and no
//! argument may follow it.

use vstd::prelude::*;
use vstd::string::StringExecFns;

use crate::log_level::{level_named, LogLevel};
use crate::text::{after_prefix, concat2, is_option_like, looks_like_option, text_eq};

verus! {

/// The client logger's options.
pub struct Opts {
    pub locations: Vec<String>,
    pub service_url: String,
    pub hemrs_url: String,
    pub store_lightning: bool,
    pub log_level: LogLevel,
}

/// The options of the command line.
#[derive(Debug, Clone, Copy, PartialEq, Eq, Structural)]
pub enum OptionName {
    Locations,
    ServiceUrl,
    HemrsUrl,
    StoreLightning,
    LogLevel,
}

/// Why a command line is refused.
#[derive(Debug)]
pub enum CliError {
    /// An argument that is no option.
    UnknownArgument(String),
    /// An option without its value.
    MissingValue(OptionName),
    /// An option given twice that may be given once.
    RepeatedOption(OptionName),
    /// A value given to the switch.
    UnexpectedValue(OptionName),
    /// A log level that is no level.
    InvalidLogLevel(String),
    /// No `--locations` given.
    MissingLocations,
    /// `--help` or `-h`: the caller shows the usage instead of running.
    HelpRequested,
}

/// [`CliError`] in the terms of the specification.
pub enum ArgsProblem {
    UnknownArgument(Seq<char>),
    MissingValue(OptionName),
    RepeatedOption(OptionName),
    UnexpectedValue(OptionName),
    InvalidLogLevel(Seq<char>),
    MissingLocations,
    HelpRequested,
}

impl CliError {
    pub open spec fn problem(self) -> ArgsProblem {
        match self {
            CliError::UnknownArgument(a) => ArgsProblem::UnknownArgument(a@),
            CliError::MissingValue(o) => ArgsProblem::MissingValue(o),
            CliError::RepeatedOption(o) => ArgsProblem::RepeatedOption(o),
            CliError::UnexpectedValue(o) => ArgsProblem::UnexpectedValue(o),
            CliError::InvalidLogLevel(v) => ArgsProblem::InvalidLogLevel(v@),
            CliError::MissingLocations => ArgsProblem::MissingLocations,
            CliError::HelpRequested => ArgsProblem::HelpRequested,
        }
    }
}

/// What the options read so far say.
pub struct ParsedArgs {
    pub locations: Seq<Seq<char>>,
    pub service_url: Option<Seq<char>>,
    pub hemrs_url: Option<Seq<char>>,
    pub store_lightning: bool,
    pub log_level: Option<LogLevel>,
}

pub open spec fn no_args_read() -> ParsedArgs {
    ParsedArgs {
        locations: Seq::empty(),
        service_url: None,
        hemrs_url: None,
        store_lightning: false,
        log_level: None,
    }
}

impl OptionName {
    /// The long form of the option.
    pub open spec fn long(self) -> Seq<char> {
        match self {
            OptionName::Locations => "--locations"@,
            OptionName::ServiceUrl => "--service-url"@,
            OptionName::HemrsUrl => "--hemrs-url"@,
            OptionName::StoreLightning => "--store-lightning"@,
            OptionName::LogLevel => "--log-level"@,
        }
    }

    /// The short form of the option, where it has one.
    pub open spec fn short(self) -> Option<Seq<char>> {
        match self {
            OptionName::Locations => Some("-l"@),
            OptionName::ServiceUrl => Some("-s"@),
            OptionName::HemrsUrl => Some("-r"@),
            OptionName::StoreLightning => None,
            OptionName::LogLevel => None,
        }
    }

    fn long_text(&self) -> (r: &'static str)
        ensures
            r@ == self.long(),
    {
        match self {
            OptionName::Locations => "--locations",
            OptionName::ServiceUrl => "--service-url",
            OptionName::HemrsUrl => "--hemrs-url",
            OptionName::StoreLightning => "--store-lightning",
            OptionName::LogLevel => "--log-level",
        }
    }

    fn short_text(&self) -> (r: Option<&'static str>)
        ensures
            match self.short() {
                Some(s) => r matches Some(t) && t@ == s,
                None => r is None,
            },
    {
        match self {
            OptionName::Locations => Some("-l"),
            OptionName::ServiceUrl => Some("-s"),
            OptionName::HemrsUrl => Some("-r"),
            OptionName::StoreLightning => None,
            OptionName::LogLevel => None,
        }
    }
}

/// How an argument names option `o`: `Some(None)` when it is the option
/// itself, `Some(Some(v))` when it is the long option carrying value `v`
/// after `=`, `None` when it does not name `o`.
pub open spec fn names_option(arg: Seq<char>, o: OptionName) -> Option<Option<Seq<char>>> {
    let with_value = o.long() + "="@;
    if arg == o.long() || (o.short() matches Some(s) && arg == s) {
        Some(None)
    } else if with_value.len() <= arg.len() && arg.subrange(0, with_value.len() as int)
        == with_value {
        Some(Some(arg.subrange(with_value.len() as int, arg.len() as int)))
    } else if o.short() is Some && o.short()->0.len() < arg.len() && arg.subrange(
        0,
        o.short()->0.len() as int,
    ) == o.short()->0 {
        Some(Some(attached_value(arg.subrange(o.short()->0.len() as int, arg.len() as int))))
    } else {
        None
    }
}

/// The value written right after a short option: what follows, without one
/// leading `=`.
pub open spec fn attached_value(rest: Seq<char>) -> Seq<char> {
    if rest.len() > 0 && rest[0] == '=' {
        rest.drop_first()
    } else {
        rest
    }
}

/// The option an argument names, with the value it carries, if any.
pub open spec fn recognize(arg: Seq<char>) -> Option<(OptionName, Option<Seq<char>>)> {
    if names_option(arg, OptionName::Locations) is Some {
        Some((OptionName::Locations, names_option(arg, OptionName::Locations)->0))
    } else if names_option(arg, OptionName::ServiceUrl) is Some {
        Some((OptionName::ServiceUrl, names_option(arg, OptionName::ServiceUrl)->0))
    } else if names_option(arg, OptionName::HemrsUrl) is Some {
        Some((OptionName::HemrsUrl, names_option(arg, OptionName::HemrsUrl)->0))
    } else if names_option(arg, OptionName::StoreLightning) is Some {
        Some((OptionName::StoreLightning, names_option(arg, OptionName::StoreLightning)->0))
    } else if names_option(arg, OptionName::LogLevel) is Some {
        Some((OptionName::LogLevel, names_option(arg, OptionName::LogLevel)->0))
    } else {
        None
    }
}

/// Takes the value `v` of option `o` (not the switch) into what was read.
pub open spec fn take_value(st: ParsedArgs, o: OptionName, v: Seq<char>) -> Result<
    ParsedArgs,
    ArgsProblem,
> {
    match o {
        OptionName::Locations => Ok(ParsedArgs { locations: st.locations.push(v), ..st }),
        OptionName::ServiceUrl => if st.service_url is Some {
            Err(ArgsProblem::RepeatedOption(o))
        } else {
            Ok(ParsedArgs { service_url: Some(v), ..st })
        },
        OptionName::HemrsUrl => if st.hemrs_url is Some {
            Err(ArgsProblem::RepeatedOption(o))
        } else {
            Ok(ParsedArgs { hemrs_url: Some(v), ..st })
        },
        OptionName::LogLevel => if st.log_level is Some {
            Err(ArgsProblem::RepeatedOption(o))
        } else if level_named(v) is None {
            Err(ArgsProblem::InvalidLogLevel(v))
        } else {
            Ok(ParsedArgs { log_level: level_named(v), ..st })
        },
        OptionName::StoreLightning => Err(ArgsProblem::UnexpectedValue(o)),
    }
}

/// Reads the arguments from position `i` on, after `st` was read before it.
pub open spec fn parse_rest(args: Seq<Seq<char>>, i: int, st: ParsedArgs) -> Result<
    ParsedArgs,
    ArgsProblem,
>
    decreases args.len() - i,
{
    if i < 0 || i >= args.len() {
        Ok(st)
    } else if args[i] == "--help"@ || args[i] == "-h"@ {
        Err(ArgsProblem::HelpRequested)
    } else if args[i] == "--"@ {
        if i + 1 < args.len() {
            Err(ArgsProblem::UnknownArgument(args[i + 1]))
        } else {
            Ok(st)
        }
    } else {
        match recognize(args[i]) {
            None => Err(ArgsProblem::UnknownArgument(args[i])),
            Some((o, inline)) => if o == OptionName::StoreLightning {
                if inline is Some {
                    Err(ArgsProblem::UnexpectedValue(o))
                } else if st.store_lightning {
                    Err(ArgsProblem::RepeatedOption(o))
                } else {
                    parse_rest(args, i + 1, ParsedArgs { store_lightning: true, ..st })
                }
            } else if inline is Some {
                match take_value(st, o, inline->0) {
                    Ok(next) => parse_rest(args, i + 1, next),
                    Err(e) => Err(e),
                }
            } else if i + 1 < args.len() && !looks_like_option(args[i + 1]) {
                match take_value(st, o, args[i + 1]) {
                    Ok(next) => parse_rest(args, i + 2, next),
                    Err(e) => Err(e),
                }
            } else {
                Err(ArgsProblem::MissingValue(o))
            },
        }
    }
}

/// What a whole command line (program name first) says, or why it is refused.
pub open spec fn parse_args(args: Seq<Seq<char>>) -> Result<ParsedArgs, ArgsProblem> {
    match parse_rest(args, 1, no_args_read()) {
        Ok(st) => if st.locations.len() == 0 {
            Err(ArgsProblem::MissingLocations)
        } else {
            Ok(st)
        },
        Err(e) => Err(e),
    }
}

/// The service URL used when none is given.
pub open spec fn default_service_url() -> Seq<char> {
    "http://wictk.frikk.io/"@
}

/// The HEMRS URL used when none is given.
pub open spec fn default_hemrs_url() -> Seq<char> {
    "http://hemrs.frikk.io/"@
}

/// The text of each argument.
pub open spec fn arg_texts(args: Seq<&str>) -> Seq<Seq<char>> {
    args.map_values(|a: &str| a@)
}

/// Whether `o` holds what the command line `p` says, with the defaults for
/// what it leaves out.
pub open spec fn opts_from(p: ParsedArgs, o: Opts) -> bool {
    &&& o.locations@.map_values(|s: String| s@) == p.locations
    &&& o.service_url@ == (match p.service_url {
        Some(u) => u,
        None => default_service_url(),
    })
    &&& o.hemrs_url@ == (match p.hemrs_url {
        Some(u) => u,
        None => default_hemrs_url(),
    })
    &&& o.store_lightning == p.store_lightning
    &&& o.log_level == (match p.log_level {
        Some(l) => l,
        None => LogLevel::Info,
    })
}

fn recognize_option(arg: &str, o: OptionName) -> (r: Option<Option<String>>)
    ensures
        match names_option(arg@, o) {
            None => r is None,
            Some(None) => r matches Some(None),
            Some(Some(v)) => r matches Some(Some(t)) && t@ == v,
        },
{
    let long = o.long_text();
    let is_short = match o.short_text() {
        Some(s) => text_eq(arg, s),
        None => false,
    };
    if text_eq(arg, long) || is_short {
        return Some(None);
    }
    let with_value = concat2(long, "=");
    match after_prefix(arg, with_value.as_str()) {
        Some(v) => {
            return Some(Some(v));
        },
        None => {},
    }
    match o.short_text() {
        Some(short) => match after_prefix(arg, short) {
            Some(rest) => {
                if rest.as_str().unicode_len() == 0 {
                    assert(arg@ =~= short@);
                    return None;
                }
                proof {
                    reveal_strlit("=");
                }
                assert("="@ =~= seq!['=']);
                match after_prefix(rest.as_str(), "=") {
                    Some(v) => {
                        assert(rest@.subrange(0, 1)[0] == rest@[0]);
                        assert(v@ =~= rest@.drop_first());
                        Some(Some(v))
                    },
                    None => {
                        proof {
                            if rest@.len() > 0 && rest@[0] == '=' {
                                assert(rest@.subrange(0, 1) =~= "="@);
                            }
                        }
                        Some(Some(rest))
                    },
                }
            },
            None => None,
        },
        None => None,
    }
}

fn recognize_arg(arg: &str) -> (r: Option<(OptionName, Option<String>)>)
    ensures
        match recognize(arg@) {
            None => r is None,
            Some((o, None)) => r matches Some((p, None)) && p == o,
            Some((o, Some(v))) => r matches Some((p, Some(t))) && p == o && t@ == v,
        },
{
    match recognize_option(arg, OptionName::Locations) {
        Some(v) => return Some((OptionName::Locations, v)),
        None => {},
    }
    match recognize_option(arg, OptionName::ServiceUrl) {
        Some(v) => return Some((OptionName::ServiceUrl, v)),
        None => {},
    }
    match recognize_option(arg, OptionName::HemrsUrl) {
        Some(v) => return Some((OptionName::HemrsUrl, v)),
        None => {},
    }
    match recognize_option(arg, OptionName::StoreLightning) {
        Some(v) => return Some((OptionName::StoreLightning, v)),
        None => {},
    }
    match recognize_option(arg, OptionName::LogLevel) {
        Some(v) => return Some((OptionName::LogLevel, v)),
        None => {},
    }
    None
}

/// The options being read.
struct Reading {
    locations: Vec<String>,
    service_url: Option<String>,
    hemrs_url: Option<String>,
    store_lightning: bool,
    log_level: Option<LogLevel>,
}

impl Reading {
    spec fn state(self) -> ParsedArgs {
        ParsedArgs {
            locations: self.locations@.map_values(|s: String| s@),
            service_url: match self.service_url {
                Some(u) => Some(u@),
                None => None,
            },
            hemrs_url: match self.hemrs_url {
                Some(u) => Some(u@),
                None => None,
            },
            store_lightning: self.store_lightning,
            log_level: self.log_level,
        }
    }

    fn take(&mut self, o: OptionName, v: String) -> (r: Result<(), CliError>)
        requires
            o != OptionName::StoreLightning,
        ensures
            match take_value(old(self).state(), o, v@) {
                Ok(next) => r is Ok && final(self).state() == next,
                Err(e) => r matches Err(err) && err.problem() == e,
            },
    {
        match o {
            OptionName::Locations => {
                let ghost before = self.locations@;
                self.locations.push(v);
                assert(self.locations@.map_values(|s: String| s@) =~= before.map_values(
                    |s: String| s@,
                ).push(v@));
                Ok(())
            },
            OptionName::ServiceUrl => {
                if self.service_url.is_some() {
                    return Err(CliError::RepeatedOption(o));
                }
                self.service_url = Some(v);
                Ok(())
            },
            OptionName::HemrsUrl => {
                if self.hemrs_url.is_some() {
                    return Err(CliError::RepeatedOption(o));
                }
                self.hemrs_url = Some(v);
                Ok(())
            },
            OptionName::LogLevel => {
                if self.log_level.is_some() {
                    return Err(CliError::RepeatedOption(o));
                }
                match LogLevel::parse(v.as_str()) {
                    Ok(level) => {
                        self.log_level = Some(level);
                        Ok(())
                    },
                    Err(_) => Err(CliError::InvalidLogLevel(v)),
                }
            },
            OptionName::StoreLightning => Err(CliError::UnexpectedValue(o)),
        }
    }
}

impl Opts {
    /// Reads the options from a command line whose first argument is the
    /// program name; refuses it as [`parse_args`] does.
    pub fn try_parse_from(args: &[&str]) -> (r: Result<Opts, CliError>)
        ensures
            match parse_args(arg_texts(args@)) {
                Ok(p) => r matches Ok(o) && opts_from(p, o),
                Err(e) => r matches Err(err) && err.problem() == e,
            },
            r matches Ok(o) ==> {
                let p = parse_args(arg_texts(args@))->Ok_0;
                &&& o.hemrs_url@ == (match p.hemrs_url {
                    Some(u) => u,
                    None => "http://hemrs.frikk.io/"@,
                })
                &&& o.service_url@ == (match p.service_url {
                    Some(u) => u,
                    None => "http://wictk.frikk.io/"@,
                })
                &&& o.locations@.map_values(|s: String| s@) == p.locations
                &&& o.store_lightning == p.store_lightning
            },
    {
        let ghost a = arg_texts(args@);
        let mut st = Reading {
            locations: Vec::new(),
            service_url: None,
            hemrs_url: None,
            store_lightning: false,
            log_level: None,
        };
        assert(st.locations@.map_values(|s: String| s@) =~= Seq::<Seq<char>>::empty());
        assert(st.state() == no_args_read());
        let n = args.len();
        let mut i: usize = 1;
        while i < n
            invariant
                n == args@.len(),
                a == arg_texts(args@),
                1 <= i,
                parse_rest(a, 1, no_args_read()) == parse_rest(a, i as int, st.state()),
            decreases n - i,
        {
            let arg = args[i];
            assert(a[i as int] == arg@);
            if text_eq(arg, "--help") || text_eq(arg, "-h") {
                return Err(CliError::HelpRequested);
            }
            if text_eq(arg, "--") {
                if i + 1 < n {
                    assert(a[i + 1] == args@[i + 1]@);
                    return Err(CliError::UnknownArgument(String::from_str(args[i + 1])));
                }
                i = n;
            } else {
            match recognize_arg(arg) {
                None => {
                    return Err(CliError::UnknownArgument(String::from_str(arg)));
                },
                Some((o, inline)) => {
                    if o == OptionName::StoreLightning {
                        if inline.is_some() {
                            return Err(CliError::UnexpectedValue(o));
                        }
                        if st.store_lightning {
                            return Err(CliError::RepeatedOption(o));
                        }
                        st.store_lightning = true;
                        i = i + 1;
                    } else {
                        match inline {
                            Some(v) => {
                                match st.take(o, v) {
                                    Ok(()) => {},
                                    Err(e) => {
                                        return Err(e);
                                    },
                                }
                                i = i + 1;
                            },
                            None => {
                                if i + 1 < n && !is_option_like(args[i + 1]) {
                                    assert(a[i + 1] == args@[i + 1]@);
                                    let v = String::from_str(args[i + 1]);
                                    match st.take(o, v) {
                                        Ok(()) => {},
                                        Err(e) => {
                                            return Err(e);
                                        },
                                    }
                                    i = i + 2;
                                } else {
                                    return Err(CliError::MissingValue(o));
                                }
                            },
                        }
                    }
                },
            }
            }
        }
        if st.locations.len() == 0 {
            return Err(CliError::MissingLocations);
        }
        let service_url = match st.service_url {
            Some(u) => u,
            None => String::from_str("http://wictk.frikk.io/"),
        };
        let hemrs_url = match st.hemrs_url {
            Some(u) => u,
            None => String::from_str("http://hemrs.frikk.io/"),
        };
        let log_level = match st.log_level {
            Some(l) => l,
            None => LogLevel::Info,
        };
        Ok(Opts {
            locations: st.locations,
            service_url,
            hemrs_url,
            store_lightning: st.store_lightning,
            log_level,
        })
    }

    /// Reads the options from a command line that [`parse_args`] accepts.
    pub fn parse_from(args: &[&str]) -> (r: Opts)
        requires
            parse_args(arg_texts(args@)) is Ok,
        ensures
            opts_from(parse_args(arg_texts(args@))->Ok_0, r),
    {
        match Opts::try_parse_from(args) {
            Ok(o) => o,
            Err(_) => {
                proof {
                    assert(false);
                }
                Opts {
                    locations: Vec::new(),
                    service_url: String::from_str("http://wictk.frikk.io/"),
                    hemrs_url: String::from_str("http://hemrs.frikk.io/"),
                    store_lightning: false,
                    log_level: LogLevel::Info,
                }
            },
        }
    }
}

/// The arguments `--locations <l>` for each location `l`, in order.
pub open spec fn location_args(locs: Seq<Seq<char>>) -> Seq<Seq<char>> {
    Seq::new(
        2 * locs.len(),
        |i: int|
            if i % 2 == 0 {
                "--locations"@
            } else {
                locs[i / 2]
            },
    )
}

/// What was read after the first `k` locations.
pub open spec fn read_locations(locs: Seq<Seq<char>>, k: int) -> ParsedArgs {
    ParsedArgs { locations: locs.take(k), ..no_args_read() }
}

proof fn lemma_parse_locations_from(program: Seq<char>, locs: Seq<Seq<char>>, k: int)
    requires
        0 <= k <= locs.len(),
        forall|j: int| 0 <= j < locs.len() ==> !looks_like_option(#[trigger] locs[j]),
    ensures
        parse_rest(seq![program] + location_args(locs), 1 + 2 * k, read_locations(locs, k))
            == Ok::<ParsedArgs, ArgsProblem>(read_locations(locs, locs.len() as int)),
    decreases locs.len() - k,
{
    let args = seq![program] + location_args(locs);
    reveal_strlit("--locations");
    reveal_strlit("--help");
    reveal_strlit("-h");
    reveal_strlit("--");
    assert("--locations"@.len() == 11 && "--help"@.len() == 6 && "-h"@.len() == 2 && "--"@.len() == 2);
    if k < locs.len() {
        assert(args[1 + 2 * k] == location_args(locs)[2 * k]);
        assert((2 * k) % 2 == 0);
        assert(location_args(locs)[2 * k] == "--locations"@);
        assert(args[2 + 2 * k] == location_args(locs)[2 * k + 1]);
        assert((2 * k + 1) % 2 == 1 && (2 * k + 1) / 2 == k);
        assert(location_args(locs)[2 * k + 1] == locs[k]);
        assert(!looks_like_option(locs[k]));
        assert(locs.take(k).push(locs[k]) =~= locs.take(k + 1));
        lemma_parse_locations_from(program, locs, k + 1);
    }
}

/// A command line of `--locations` options alone (each with a value that does
/// not look like an option) reads as those locations, in order, with every
/// other option left to its default.
pub proof fn law_locations_are_read_in_order(program: Seq<char>, locs: Seq<Seq<char>>)
    requires
        locs.len() > 0,
        forall|k: int| 0 <= k < locs.len() ==> !looks_like_option(#[trigger] locs[k]),
    ensures
        parse_args(seq![program] + location_args(locs)) == Ok::<ParsedArgs, ArgsProblem>(
            ParsedArgs { locations: locs, ..no_args_read() },
        ),
{
    lemma_parse_locations_from(program, locs, 0);
    assert(read_locations(locs, 0) == no_args_read()) by {
        assert(locs.take(0) =~= Seq::<Seq<char>>::empty());
    }
    assert(locs.take(locs.len() as int) =~= locs);
}

/// A command line that gives a location, a service URL and a HEMRS URL (values
/// that do not look like options) reads as exactly those.
pub proof fn law_given_urls_are_kept(
    program: Seq<char>,
    city: Seq<char>,
    service_url: Seq<char>,
    hemrs_url: Seq<char>,
)
    requires
        !looks_like_option(city),
        !looks_like_option(service_url),
        !looks_like_option(hemrs_url),
    ensures
        parse_args(
            seq![program, "--locations"@, city, "--service-url"@, service_url, "--hemrs-url"@, hemrs_url],
        ) == Ok::<ParsedArgs, ArgsProblem>(
            ParsedArgs {
                locations: seq![city],
                service_url: Some(service_url),
                hemrs_url: Some(hemrs_url),
                ..no_args_read()
            },
        ),
{
    reveal_strlit("--locations");
    reveal_strlit("--service-url");
    reveal_strlit("--hemrs-url");
    reveal_strlit("-l");
    reveal_strlit("-s");
    reveal_strlit("=");
    let args = seq![program, "--locations"@, city, "--service-url"@, service_url, "--hemrs-url"@, hemrs_url];
    let loc_eq = "--locations"@ + "="@;
    let svc_eq = "--service-url"@ + "="@;
    assert(loc_eq[2] == 'l');
    assert("--service-url"@.subrange(0, loc_eq.len() as int)[2] == 's');
    assert("--service-url"@ != "--locations"@);
    assert("--service-url"@ != "-l"@);
    assert("--service-url"@.subrange(0, 2)[1] != "-l"@[1]);
    assert(names_option("--service-url"@, OptionName::Locations) is None);
    assert(loc_eq.len() > "--hemrs-url"@.len());
    assert("--hemrs-url"@[2] != "--locations"@[2]);
    assert("--hemrs-url"@ != "--locations"@);
    assert("--hemrs-url"@ != "-l"@);
    assert("--hemrs-url"@.subrange(0, 2)[1] != "-l"@[1]);
    assert(names_option("--hemrs-url"@, OptionName::Locations) is None);
    assert("--hemrs-url"@ != "--service-url"@);
    assert("--hemrs-url"@ != "-s"@);
    assert(svc_eq.len() > "--hemrs-url"@.len());
    assert("--hemrs-url"@.subrange(0, 2)[1] != "-s"@[1]);
    assert(names_option("--hemrs-url"@, OptionName::ServiceUrl) is None);
    reveal_strlit("--help");
    reveal_strlit("-h");
    reveal_strlit("--");
    assert("--service-url"@.len() == 13 && "--hemrs-url"@.len() == 11);
    assert("--help"@.len() == 6 && "-h"@.len() == 2 && "--"@.len() == 2);
    assert(recognize("--service-url"@) == Some((OptionName::ServiceUrl, None::<Seq<char>>)));
    assert(recognize("--hemrs-url"@) == Some((OptionName::HemrsUrl, None::<Seq<char>>)));
    let st1 = ParsedArgs { locations: seq![city], ..no_args_read() };
    assert(no_args_read().locations.push(city) =~= seq![city]);
    let st2 = ParsedArgs { service_url: Some(service_url), ..st1 };
    let st3 = ParsedArgs { hemrs_url: Some(hemrs_url), ..st2 };
    assert(parse_rest(args, 7, st3) == Ok::<ParsedArgs, ArgsProblem>(st3));
    assert(parse_rest(args, 5, st2) == parse_rest(args, 7, st3));
    assert(parse_rest(args, 3, st1) == parse_rest(args, 5, st2));
    assert(parse_rest(args, 1, no_args_read()) == parse_rest(args, 3, st1));
}


/// Whether argument `a` names option `o` (in any of its forms).
pub open spec fn names(a: Seq<char>, o: OptionName) -> bool {
    match recognize(a) {
        Some((p, _)) => p == o,
        None => false,
    }
}

/// Reading arguments that do not name `--hemrs-url` leaves the HEMRS URL as it was.
proof fn lemma_hemrs_url_untouched(args: Seq<Seq<char>>, i: int, st: ParsedArgs)
    requires
        forall|j: int| i <= j < args.len() ==> !names(#[trigger] args[j], OptionName::HemrsUrl),
    ensures
        parse_rest(args, i, st) is Ok ==> parse_rest(args, i, st)->Ok_0.hemrs_url == st.hemrs_url,
    decreases args.len() - i,
{
    if 0 <= i < args.len() && !(args[i] == "--help"@ || args[i] == "-h"@) && args[i] != "--"@ {
        match recognize(args[i]) {
            None => {},
            Some((o, inline)) => {
                assert(names(args[i], o));
                if o == OptionName::StoreLightning {
                    lemma_hemrs_url_untouched(args, i + 1, ParsedArgs { store_lightning: true, ..st });
                } else if inline is Some {
                    if let Ok(next) = take_value(st, o, inline->0) {
                        lemma_hemrs_url_untouched(args, i + 1, next);
                    }
                } else if i + 1 < args.len() && !looks_like_option(args[i + 1]) {
                    if let Ok(next) = take_value(st, o, args[i + 1]) {
                        lemma_hemrs_url_untouched(args, i + 2, next);
                    }
                }
            },
        }
    }
}

/// A command line on which no argument names `--hemrs-url` (nor `-r`) sends
/// the measurements to the default HEMRS URL, whatever else it gives (a
/// service URL among them); one that names it keeps the URL given.
pub proof fn law_hemrs_url_is_default_unless_given(args: Seq<Seq<char>>, o: Opts)
    requires
        parse_args(args) is Ok,
        opts_from(parse_args(args)->Ok_0, o),
    ensures
        (forall|j: int| 1 <= j < args.len() ==> !names(#[trigger] args[j], OptionName::HemrsUrl))
            ==> o.hemrs_url@ == "http://hemrs.frikk.io/"@,
        parse_args(args)->Ok_0.hemrs_url matches Some(u) ==> o.hemrs_url@ == u,
        parse_args(args)->Ok_0.service_url is None ==> o.service_url@ == "http://wictk.frikk.io/"@,
        parse_args(args)->Ok_0.log_level is None ==> o.log_level == LogLevel::Info,
{
    if forall|j: int| 1 <= j < args.len() ==> !names(#[trigger] args[j], OptionName::HemrsUrl) {
        lemma_hemrs_url_untouched(args, 1, no_args_read());
    }
}

} // verus!
