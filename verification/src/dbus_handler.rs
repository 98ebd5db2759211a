//! The three methods of the bus object: what each answers, and what it asks to
//! be written, given the modes that were available when the service started.

use crate::controls::power_control;
use crate::controls::power_control::{is_lone_unknown, PowerMode};
use crate::text::{
    join, joined, lemma_join_then_split, lemma_joined_ends, lemma_trimmed_unchanged, split_on,
    string_texts, trimmed,
};
use dbus_crossroads::MethodErr;
use vstd::prelude::*;

verus! {

/// The error that a method of the bus object answers with: an error name and a
/// description.
#[verifier::external_type_specification]
#[verifier::external_body]
pub struct ExMethodErr(dbus_crossroads::MethodErr);

/// The error name that `MethodErr::errorname` gives for `error`.
pub uninterp spec fn method_err_name(error: MethodErr) -> Seq<char>;

/// The description that `MethodErr::description` gives for `error`.
pub uninterp spec fn method_err_description(error: MethodErr) -> Seq<char>;

/// The description that `MethodErr::invalid_arg` writes for `argument`.
pub uninterp spec fn invalid_arg_description(argument: Seq<char>) -> Seq<char>;

/// `MethodErr::failed`: an error of the name `org.freedesktop.DBus.Error.Failed`
/// whose description is the text handed in.
#[verifier::external_body]
fn failed(description: &str) -> (error: MethodErr)
    ensures
        method_err_name(error) == "org.freedesktop.DBus.Error.Failed"@,
        method_err_description(error) == description@,
{
    MethodErr::failed(description)
}

/// `MethodErr::invalid_arg`: an error of the name
/// `org.freedesktop.DBus.Error.InvalidArgs` whose description is made from the
/// argument handed in.
#[verifier::external_body]
fn invalid_arg(argument: &str) -> (error: MethodErr)
    ensures
        method_err_name(error) == "org.freedesktop.DBus.Error.InvalidArgs"@,
        method_err_description(error) == invalid_arg_description(argument@),
{
    MethodErr::invalid_arg(argument)
}

/// Whether `error` says that a method failed, with the description `description`.
pub open spec fn is_failure(error: MethodErr, description: Seq<char>) -> bool {
    &&& method_err_name(error) == "org.freedesktop.DBus.Error.Failed"@
    &&& method_err_description(error) == description
}

/// Whether `error` says that a method was called with the wrong `argument`.
pub open spec fn is_invalid_argument(error: MethodErr, argument: Seq<char>) -> bool {
    &&& method_err_name(error) == "org.freedesktop.DBus.Error.InvalidArgs"@
    &&& method_err_description(error) == invalid_arg_description(argument)
}

/// Whether `error` says that a method failed, described by what `cause` says.
pub open spec fn is_failure_of(error: MethodErr, cause: power_control::Error) -> bool {
    exists|text: String| #[trigger] cause.says(text) && is_failure(error, text@)
}

impl From<power_control::Error> for MethodErr {
    /// A failure that is described by what `value` says.
    fn from(value: power_control::Error) -> (error: MethodErr)
        ensures
            is_failure_of(error, value),
    {
        let message = value.message();
        failed(message.as_str())
    }
}

/// `from` states the name and the description of its result; `from_spec` is
/// some error that `from` may give.
impl vstd::std_specs::convert::FromSpecImpl<power_control::Error> for MethodErr {
    open spec fn obeys_from_spec() -> bool {
        false
    }

    open spec fn from_spec(value: power_control::Error) -> MethodErr {
        choose|error: MethodErr| is_failure_of(error, value)
    }
}

/// The answer of `GetAvailablePowerModes` for `modes`: their texts, one on each
/// line.
pub open spec fn rendered(modes: Seq<PowerMode>) -> Seq<char> {
    joined(modes.map_values(|mode: PowerMode| mode.token()), "\n"@)
}

/// What `GetAvailablePowerModes` answers can be read as a file of available
/// modes, and then offers the modes that were answered for. The one exception
/// are the modes that such a file never offers: `Unknown` alone.
pub proof fn lemma_rendered_is_read_back(modes: Seq<PowerMode>)
    ensures
        power_control::available_modes(rendered(modes)) == if is_lone_unknown(modes) {
            Seq::empty()
        } else {
            modes
        },
{
    let tokens = modes.map_values(|mode: PowerMode| mode.token());
    let text = rendered(modes);
    reveal_strlit("\n");
    assert("\n"@ =~= seq!['\n']);
    power_control::lemma_tokens_differ();
    if modes.len() == 0 {
        assert(text =~= Seq::<char>::empty());
        assert(trimmed(text) =~= text);
        assert(split_on(text, '\n') =~= seq![text]);
        power_control::lemma_token_holds_no_whitespace(PowerMode::Eco);
        power_control::lemma_token_holds_no_whitespace(PowerMode::Comfort);
        power_control::lemma_token_holds_no_whitespace(PowerMode::Sport);
        power_control::lemma_token_holds_no_whitespace(PowerMode::Turbo);
        assert(PowerMode::of_token(trimmed(text)) == PowerMode::Unknown);
        assert(power_control::listed_modes(text) =~= seq![PowerMode::Unknown]);
        assert(power_control::available_modes(text) =~= modes);
    } else {
        assert forall|i: int| 0 <= i < tokens.len() implies !(#[trigger] tokens[i]).contains(
            '\n',
        ) by {
            power_control::lemma_token_holds_no_whitespace(modes[i]);
        }
        lemma_join_then_split(tokens, '\n');
        power_control::lemma_token_holds_no_whitespace(modes.first());
        power_control::lemma_token_holds_no_whitespace(modes.last());
        lemma_joined_ends(tokens, "\n"@);
        lemma_trimmed_unchanged(text);
        let listed = power_control::listed_modes(text);
        assert(listed.len() == modes.len());
        assert forall|i: int| 0 <= i < modes.len() implies listed[i] == modes[i] by {
            power_control::lemma_token_holds_no_whitespace(modes[i]);
            lemma_trimmed_unchanged(tokens[i]);
            power_control::lemma_mode_round_trip(modes[i]);
        }
        assert(listed =~= modes);
    }
}

/// A file that lists modes by the texts the controller knows them by, one on
/// each line and nothing else, is answered by `GetAvailablePowerModes` as it
/// stands.
pub proof fn lemma_listed_tokens_are_answered(tokens: Seq<Seq<char>>)
    requires
        tokens.len() >= 1,
        forall|i: int| 0 <= i < tokens.len() ==> power_control::is_token(#[trigger] tokens[i]),
    ensures
        rendered(power_control::available_modes(joined(tokens, "\n"@))) == joined(tokens, "\n"@),
{
    let modes = tokens.map_values(|token: Seq<char>| PowerMode::of_token(token));
    assert forall|i: int| 0 <= i < tokens.len() implies modes[i].token() == tokens[i] && modes[i]
        != PowerMode::Unknown by {
        power_control::lemma_token_round_trip(tokens[i]);
    }
    assert(modes.map_values(|mode: PowerMode| mode.token()) =~= tokens);
    assert(modes[0] != PowerMode::Unknown);
    lemma_rendered_is_read_back(modes);
}

/// What the methods of the bus object share: the modes that were available
/// when the service started. They are read once, from the file of available
/// modes, and never again; so they are never `Unknown` alone.
pub struct ControlsHandler {
    available_power_modes: Vec<PowerMode>,
    available_power_modes_str: String,
}

impl View for ControlsHandler {
    type V = Seq<PowerMode>;

    /// The available modes, in the order of the file they were read from.
    closed spec fn view(&self) -> Seq<PowerMode> {
        self.available_power_modes@
    }
}

impl ControlsHandler {
    /// The modes are such as a file of available modes offers, and the answer
    /// of `GetAvailablePowerModes` is kept as it was made from them.
    #[verifier::type_invariant]
    spec fn well_formed(self) -> bool {
        &&& !is_lone_unknown(self.available_power_modes@)
        &&& self.available_power_modes_str@ == rendered(self.available_power_modes@)
    }

    /// A handler for a service that started with `available_power_modes`.
    fn new(available_power_modes: Vec<PowerMode>) -> (handler: ControlsHandler)
        requires
            !is_lone_unknown(available_power_modes@),
        ensures
            handler@ == available_power_modes@,
    {
        let mut tokens: Vec<String> = Vec::new();
        let mut i: usize = 0;
        while i < available_power_modes.len()
            invariant
                i <= available_power_modes.len(),
                string_texts(tokens@) == available_power_modes@.map_values(
                    |mode: PowerMode| mode.token(),
                ).take(i as int),
            decreases available_power_modes.len() - i,
        {
            let token = String::from(available_power_modes[i]);
            proof {
                let all = available_power_modes@.map_values(|mode: PowerMode| mode.token());
                assert(string_texts(tokens@.push(token)) =~= string_texts(tokens@).push(token@));
                assert(all.take(i + 1) =~= all.take(i as int).push(token@));
            }
            tokens.push(token);
            i += 1;
        }
        proof {
            let all = available_power_modes@.map_values(|mode: PowerMode| mode.token());
            assert(all.take(available_power_modes.len() as int) =~= all);
        }
        let available_power_modes_str = join(&tokens, "\n");
        ControlsHandler { available_power_modes, available_power_modes_str }
    }

    /// The modes that were available when the service started.
    pub fn available_power_modes(&self) -> (modes: &Vec<PowerMode>)
        ensures
            modes@ == self@,
            !is_lone_unknown(modes@),
    {
        proof {
            use_type_invariant(self);
        }
        &self.available_power_modes
    }

    /// Whether `mode` was available when the service started.
    pub fn is_available(&self, mode: PowerMode) -> (r: bool)
        ensures
            r == self@.contains(mode),
    {
        let mut i: usize = 0;
        while i < self.available_power_modes.len()
            invariant
                i <= self.available_power_modes.len(),
                forall|j: int| 0 <= j < i ==> self.available_power_modes@[j] != mode,
            decreases self.available_power_modes.len() - i,
        {
            if self.available_power_modes[i] == mode {
                return true;
            }
            i += 1;
        }
        false
    }

    /// The answer of `GetAvailablePowerModes`: the texts of the available
    /// modes, one on each line.
    pub fn get_available_power_modes(&self) -> (reply: String)
        ensures
            reply@ == rendered(self@),
    {
        proof {
            use_type_invariant(self);
        }
        self.available_power_modes_str.clone()
    }

    /// The first half of `SetPowerMode`, before anything is written: the text
    /// that is to become the contents of the file of the current mode, or the
    /// error that the method answers with. Only a mode that was available when
    /// the service started, and that is not `Unknown`, is written.
    pub fn set_power_mode(&self, power_mode: String) -> (r: Result<String, MethodErr>)
        ensures
            ({
                let target = PowerMode::of_token(power_mode@);
                if !self@.contains(target) {
                    r is Err && is_invalid_argument(
                        r->Err_0,
                        "This power mode is not available."@,
                    )
                } else if target == PowerMode::Unknown {
                    r is Err && is_invalid_argument(
                        r->Err_0,
                        "Unknown power mode can't be used!"@,
                    )
                } else {
                    r is Ok && r->Ok_0@ == target.token() && r->Ok_0@ == power_mode@
                }
            }),
    {
        proof {
            power_control::lemma_tokens_differ();
        }
        let target = PowerMode::from(power_mode);
        if !self.is_available(target) {
            return Err(invalid_arg("This power mode is not available."));
        }
        match power_control::set_power_mode(target) {
            Ok(text) => Ok(text),
            Err(error) => {
                let message = error.message();
                Err(invalid_arg(message.as_str()))
            },
        }
    }
}

/// The answer of `GetCurrentPowerMode`, from what reading the file of the
/// current mode gave: the text of the mode that the file reports, or a failure
/// where the file could not be read.
pub fn get_current_power_mode(contents: Result<String, std::io::Error>) -> (r: Result<
    String,
    MethodErr,
>)
    ensures
        match contents {
            Ok(text) => r is Ok && r->Ok_0@ == power_control::current_mode(text@).token(),
            Err(source) => r is Err && is_failure_of(
                r->Err_0,
                power_control::Error::IOError(source),
            ),
        },
{
    match power_control::get_current_power_mode(contents) {
        Ok(mode) => Ok(String::from(mode)),
        Err(error) => Err(MethodErr::from(error)),
    }
}

/// The second half of `SetPowerMode`, from what writing the file of the
/// current mode gave: the answer of the method.
pub fn power_mode_written(written: Result<(), std::io::Error>) -> (r: Result<String, MethodErr>)
    ensures
        match written {
            Ok(_) => r is Ok && r->Ok_0@ == "Success"@,
            Err(source) => r is Err && is_failure_of(
                r->Err_0,
                power_control::Error::IOError(source),
            ),
        },
{
    match written {
        Ok(_) => Ok("Success".to_owned()),
        Err(source) => Err(MethodErr::from(power_control::Error::from(source))),
    }
}

/// The handler that the service starts with, from what reading the file of
/// available modes gave. Where the file could not be read there is no handler,
/// and the service does not start.
pub fn create_msi_controls_handler(available_modes: Result<String, std::io::Error>) -> (r: Result<
    ControlsHandler,
    power_control::Error,
>)
    ensures
        match available_modes {
            Ok(text) => r is Ok && r->Ok_0@ == power_control::available_modes(text@),
            Err(source) => r is Err && r->Err_0 == power_control::Error::IOError(source),
        },
{
    match power_control::get_available_power_modes(available_modes) {
        Ok(available_power_modes) => Ok(ControlsHandler::new(available_power_modes)),
        Err(error) => Err(error),
    }
}

} // verus!
