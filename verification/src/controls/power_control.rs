//! The power modes of the embedded controller, the text that stands for each in
//! its files, and what is read from and written to those files.

use crate::text::{
    is_whitespace, lemma_first_index_of, lemma_trimmed, lemma_trimmed_unchanged, same_text, split,
    split_on, trim, trimmed,
};
use vstd::prelude::*;

verus! {

/// The error of `std::io` operations, carried through as it came.
#[verifier::external_type_specification]
#[verifier::external_body]
pub struct ExIoError(std::io::Error);

/// What can go wrong in reading or setting the power mode.
#[derive(Debug)]
pub enum Error {
    /// A file of the embedded controller could not be read or written.
    IOError(std::io::Error),
    /// `PowerMode::Unknown` was given as the mode to set.
    SetUnknownModeError,
}

impl Error {
    /// Whether `text` is what the error says to a reader. For `IOError` that is
    /// what the error it holds is displayed as.
    pub open spec fn says(self, text: String) -> bool {
        match self {
            Error::IOError(source) => vstd::string::to_string_from_display_ensures::<
                std::io::Error,
            >(&source, text),
            Error::SetUnknownModeError => text@ == "Unknown power mode can't be used!"@,
        }
    }

    /// What the error says to a reader.
    pub fn message(&self) -> (text: String)
        ensures
            self.says(text),
    {
        match self {
            Error::IOError(source) => source.to_string(),
            Error::SetUnknownModeError => "Unknown power mode can't be used!".to_owned(),
        }
    }
}

impl From<std::io::Error> for Error {
    fn from(source: std::io::Error) -> (error: Error) {
        Error::IOError(source)
    }
}

impl vstd::std_specs::convert::FromSpecImpl<std::io::Error> for Error {
    open spec fn obeys_from_spec() -> bool {
        true
    }

    open spec fn from_spec(source: std::io::Error) -> Error {
        Error::IOError(source)
    }
}

/// A power profile of the embedded controller. `Unknown` stands for every text
/// that names none of the others; it can be read but not set.
#[derive(Debug, Clone, Copy, PartialEq, Eq, Structural)]
pub enum PowerMode {
    Eco,
    Comfort,
    Sport,
    Turbo,
    Unknown,
}

impl PowerMode {
    /// The text that stands for a mode. That of `Unknown` is only shown: it is
    /// never written to the controller.
    pub open spec fn token(self) -> Seq<char> {
        match self {
            PowerMode::Eco => "eco"@,
            PowerMode::Comfort => "comfort"@,
            PowerMode::Sport => "sport"@,
            PowerMode::Turbo => "turbo"@,
            PowerMode::Unknown => "unknown"@,
        }
    }

    /// The mode that a text stands for.
    pub open spec fn of_token(token: Seq<char>) -> PowerMode {
        if token == "eco"@ {
            PowerMode::Eco
        } else if token == "comfort"@ {
            PowerMode::Comfort
        } else if token == "sport"@ {
            PowerMode::Sport
        } else if token == "turbo"@ {
            PowerMode::Turbo
        } else {
            PowerMode::Unknown
        }
    }
}

/// Whether `text` is one of the four texts that the controller knows a mode by.
pub open spec fn is_token(text: Seq<char>) -> bool {
    text == "eco"@ || text == "comfort"@ || text == "sport"@ || text == "turbo"@
}

/// The five texts of `PowerMode::token` differ from one another.
pub proof fn lemma_tokens_differ()
    ensures
        "eco"@ != "comfort"@,
        "eco"@ != "sport"@,
        "eco"@ != "turbo"@,
        "eco"@ != "unknown"@,
        "comfort"@ != "sport"@,
        "comfort"@ != "turbo"@,
        "comfort"@ != "unknown"@,
        "sport"@ != "turbo"@,
        "sport"@ != "unknown"@,
        "turbo"@ != "unknown"@,
{
    reveal_strlit("eco");
    reveal_strlit("comfort");
    reveal_strlit("sport");
    reveal_strlit("turbo");
    reveal_strlit("unknown");
    assert("eco"@.len() == 3);
    assert("comfort"@.len() == 7 && "comfort"@[0] == 'c');
    assert("sport"@.len() == 5 && "sport"@[0] == 's');
    assert("turbo"@.len() == 5 && "turbo"@[0] == 't');
    assert("unknown"@.len() == 7 && "unknown"@[0] == 'u');
}

/// The text of a mode is not empty and holds no white space, so no line feed
/// either.
pub proof fn lemma_token_holds_no_whitespace(mode: PowerMode)
    ensures
        mode.token().len() > 0,
        forall|j: int| 0 <= j < mode.token().len() ==> !is_whitespace(#[trigger] mode.token()[j]),
        !mode.token().contains('\n'),
{
    reveal_strlit("eco");
    reveal_strlit("comfort");
    reveal_strlit("sport");
    reveal_strlit("turbo");
    reveal_strlit("unknown");
    assert(is_whitespace('\n'));
}

/// Reading the text of a mode gives that mode back, whichever mode it is; and
/// the text of `Unknown`, unlike that of every other mode, is none of the texts
/// that the controller knows a mode by.
pub proof fn lemma_mode_round_trip(mode: PowerMode)
    ensures
        PowerMode::of_token(mode.token()) == mode,
        is_token(mode.token()) <==> mode != PowerMode::Unknown,
{
    lemma_tokens_differ();
}

/// A text that the controller knows a mode by is the text of the mode that it
/// is read as.
pub proof fn lemma_token_round_trip(text: Seq<char>)
    requires
        is_token(text),
    ensures
        PowerMode::of_token(text).token() == text,
        PowerMode::of_token(text) != PowerMode::Unknown,
{
    lemma_tokens_differ();
}

/// Every text that is none of the four that the controller knows a mode by is
/// read as `Unknown`.
pub proof fn lemma_other_text_is_unknown(text: Seq<char>)
    requires
        !is_token(text),
    ensures
        PowerMode::of_token(text) == PowerMode::Unknown,
{
}

impl From<String> for PowerMode {
    fn from(value: String) -> (mode: PowerMode) {
        let token = value.as_str();
        if same_text(token, "eco") {
            PowerMode::Eco
        } else if same_text(token, "comfort") {
            PowerMode::Comfort
        } else if same_text(token, "sport") {
            PowerMode::Sport
        } else if same_text(token, "turbo") {
            PowerMode::Turbo
        } else {
            PowerMode::Unknown
        }
    }
}

impl vstd::std_specs::convert::FromSpecImpl<String> for PowerMode {
    open spec fn obeys_from_spec() -> bool {
        true
    }

    open spec fn from_spec(value: String) -> PowerMode {
        PowerMode::of_token(value@)
    }
}

impl From<PowerMode> for String {
    fn from(value: PowerMode) -> (token: String)
        ensures
            token@ == value.token(),
    {
        match value {
            PowerMode::Eco => "eco".to_owned(),
            PowerMode::Comfort => "comfort".to_owned(),
            PowerMode::Sport => "sport".to_owned(),
            PowerMode::Turbo => "turbo".to_owned(),
            PowerMode::Unknown => "unknown".to_owned(),
        }
    }
}

/// Two strings of one text need not be one value, so `from` states the text of
/// its result and `from_spec` is some string of that text.
impl vstd::std_specs::convert::FromSpecImpl<PowerMode> for String {
    open spec fn obeys_from_spec() -> bool {
        false
    }

    open spec fn from_spec(value: PowerMode) -> String {
        choose|token: String| token@ == value.token()
    }
}

/// The modes that the lines of `text` stand for, one for each line: the text is
/// trimmed, cut at its line feeds, and each line is trimmed and read as a mode.
pub open spec fn listed_modes(text: Seq<char>) -> Seq<PowerMode> {
    split_on(trimmed(text), '\n').map_values(|line: Seq<char>| PowerMode::of_token(trimmed(line)))
}

/// Whether `modes` are `Unknown` and nothing else.
pub open spec fn is_lone_unknown(modes: Seq<PowerMode>) -> bool {
    modes.len() == 1 && modes[0] == PowerMode::Unknown
}

/// The modes that a file of available modes with the contents `text` offers. A
/// file of one line that names no mode offers nothing.
pub open spec fn available_modes(text: Seq<char>) -> Seq<PowerMode> {
    let modes = listed_modes(text);
    if is_lone_unknown(modes) {
        Seq::empty()
    } else {
        modes
    }
}

/// A file of a single line that names no mode offers no mode at all, not one
/// `Unknown`. The file has a single line where its trimmed contents hold no
/// line feed.
pub proof fn lemma_lone_unknown_line_offers_nothing(text: Seq<char>)
    requires
        !trimmed(text).contains('\n'),
        !is_token(trimmed(text)),
    ensures
        listed_modes(text) == seq![PowerMode::Unknown],
        available_modes(text) == Seq::<PowerMode>::empty(),
{
    let line = trimmed(text);
    lemma_first_index_of(line, '\n', line.len() as int);
    assert(split_on(line, '\n') =~= seq![line]);
    lemma_trimmed(text);
    lemma_trimmed_unchanged(line);
    assert(listed_modes(text) =~= seq![PowerMode::Unknown]);
}

/// The mode that a file of the current mode with the contents `text` reports.
pub open spec fn current_mode(text: Seq<char>) -> PowerMode {
    PowerMode::of_token(trimmed(text))
}

/// A file of the current mode that holds the text of a mode and nothing else
/// reports that mode: what `set_power_mode` hands out to be written is read
/// back as the mode that was set.
pub proof fn lemma_written_mode_is_read_back(mode: PowerMode)
    ensures
        current_mode(mode.token()) == mode,
{
    lemma_token_holds_no_whitespace(mode);
    lemma_trimmed_unchanged(mode.token());
    lemma_mode_round_trip(mode);
}

/// The available modes, from what reading the file of available modes gave:
/// its contents, or the error of the read.
pub fn get_available_power_modes(contents: Result<String, std::io::Error>) -> (r: Result<
    Vec<PowerMode>,
    Error,
>)
    ensures
        match contents {
            Ok(text) => r is Ok && r->Ok_0@ == available_modes(text@),
            Err(source) => r is Err && r->Err_0 == Error::IOError(source),
        },
        r matches Ok(modes) ==> !is_lone_unknown(modes@),
{
    match contents {
        Err(source) => Err(Error::from(source)),
        Ok(text) => {
            let lines = split(trim(text.as_str()), '\n');
            let mut modes: Vec<PowerMode> = Vec::new();
            let mut i: usize = 0;
            while i < lines.len()
                invariant
                    i <= lines.len(),
                    crate::text::slice_texts(lines@) == split_on(trimmed(text@), '\n'),
                    modes@ == listed_modes(text@).take(i as int),
                decreases lines.len() - i,
            {
                let mode = PowerMode::from(trim(lines[i]).to_owned());
                proof {
                    let all = listed_modes(text@);
                    assert(crate::text::slice_texts(lines@)[i as int] == lines@[i as int]@);
                    assert(all[i as int] == mode);
                    assert(all.take(i + 1) =~= all.take(i as int).push(mode));
                }
                modes.push(mode);
                i += 1;
            }
            proof {
                let all = listed_modes(text@);
                assert(crate::text::slice_texts(lines@).len() == lines@.len());
                assert(all.take(lines.len() as int) =~= all);
            }
            if modes.len() == 1 && modes[0] == PowerMode::Unknown {
                Ok(Vec::new())
            } else {
                Ok(modes)
            }
        },
    }
}

/// The current mode, from what reading the file of the current mode gave: its
/// contents, or the error of the read. A text that names no mode is no error.
pub fn get_current_power_mode(contents: Result<String, std::io::Error>) -> (r: Result<
    PowerMode,
    Error,
>)
    ensures
        match contents {
            Ok(text) => r is Ok && r->Ok_0 == current_mode(text@),
            Err(source) => r is Err && r->Err_0 == Error::IOError(source),
        },
{
    match contents {
        Err(source) => Err(Error::from(source)),
        Ok(text) => Ok(PowerMode::from(trim(text.as_str()).to_owned())),
    }
}

/// What is to be written to the file of the current mode to set `power_mode`:
/// the whole of its new contents. `Unknown` cannot be set, and then there is
/// nothing to write.
pub fn set_power_mode(power_mode: PowerMode) -> (r: Result<String, Error>)
    ensures
        power_mode == PowerMode::Unknown ==> r is Err && r->Err_0 is SetUnknownModeError,
        power_mode != PowerMode::Unknown ==> r is Ok && r->Ok_0@ == power_mode.token(),
{
    if power_mode == PowerMode::Unknown {
        return Err(Error::SetUnknownModeError);
    }
    Ok(String::from(power_mode))
}

} // verus!
