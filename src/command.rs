//! Command lines of the fan-control tool and what came of running them.

use vstd::prelude::*;
use crate::text::views;

verus! {

/// The highest manual fan speed the tool accepts.
pub const MAX_FAN_SPEED: u8 = 96;

/// Why a manual fan speed was refused.
#[derive(Debug, Clone, Copy, PartialEq, Eq, Structural)]
pub enum SpeedError {
    /// The value lies outside `0..=96`.
    OutOfRange,
}

/// A manual fan speed within `0..=96`.
#[derive(Debug, Clone, Copy, PartialEq, Eq, Structural)]
pub struct FanSpeed {
    value: u8,
}

impl FanSpeed {
    /// The speed as a number.
    pub closed spec fn spec_value(&self) -> u8 {
        self.value
    }

    #[verifier::type_invariant]
    closed spec fn in_range(&self) -> bool {
        self.value <= MAX_FAN_SPEED
    }

    /// The lowest speed, the one that stands before the user picks another.
    pub fn zero() -> (r: FanSpeed)
        ensures
            r.spec_value() == 0,
    {
        FanSpeed { value: 0 }
    }

    /// Checks a requested speed: values in `0..=96` are taken as they are,
    /// all others refused.
    pub fn new(value: i64) -> (r: Result<FanSpeed, SpeedError>)
        ensures
            0 <= value <= 96 <==> r is Ok,
            r is Ok ==> r->Ok_0.spec_value() == value,
            r is Err ==> r->Err_0 == SpeedError::OutOfRange,
    {
        if 0 <= value && value <= MAX_FAN_SPEED as i64 {
            Ok(FanSpeed { value: value as u8 })
        } else {
            Err(SpeedError::OutOfRange)
        }
    }

    /// The speed as a number.
    pub fn value(&self) -> (r: u8)
        ensures
            r == self.spec_value(),
            r <= 96,
    {
        proof {
            use_type_invariant(self);
        }
        self.value
    }
}

/// The decimal digit character for `d`.
pub open spec fn digit_char(d: nat) -> char {
    (('0' as u8) + d) as u8 as char
}

/// The decimal numeral of `n`, without sign or leading zeros.
pub open spec fn decimal(n: nat) -> Seq<char>
    decreases n,
{
    if n < 10 {
        seq![digit_char(n)]
    } else {
        decimal(n / 10).push(digit_char(n % 10))
    }
}

/// Relies on `u8`'s `Display` (through `to_string`): it writes the number in
/// decimal, without sign or padding.
#[verifier::external_body]
fn decimal_string(n: u8) -> (r: String)
    ensures
        r@ == decimal(n as nat),
{
    n.to_string()
}

/// The program that does the work.
pub fn program() -> (r: &'static str)
    ensures
        r@ == "nbfc"@,
{
    "nbfc"
}

/// One invocation of the fan-control tool.
#[derive(Debug, Clone, Copy, PartialEq, Eq, Structural)]
pub enum ToolCommand {
    /// Lists the available configurations, one per line.
    ListConfigs,
    /// Reports temperature and fan speeds.
    Status,
    /// Sets a manual fan speed.
    SetSpeed(FanSpeed),
    /// Hands the fan back to automatic control.
    SetAuto,
}

/// The arguments that follow the program name for `c`.
pub open spec fn arguments_of(c: ToolCommand) -> Seq<Seq<char>> {
    match c {
        ToolCommand::ListConfigs => seq!["config"@, "--list"@],
        ToolCommand::Status => seq!["status"@, "-a"@],
        ToolCommand::SetSpeed(s) => seq!["set"@, "-s"@, decimal(s.spec_value() as nat)],
        ToolCommand::SetAuto => seq!["set"@, "-a"@],
    }
}

impl ToolCommand {
    /// The command that sets a manual speed, if `value` is one the tool takes.
    pub fn manual_speed(value: i64) -> (r: Result<ToolCommand, SpeedError>)
        ensures
            0 <= value <= 96 <==> r is Ok,
            r is Ok ==> (r->Ok_0 matches ToolCommand::SetSpeed(s) && s.spec_value() == value),
            r is Err ==> r->Err_0 == SpeedError::OutOfRange,
    {
        match FanSpeed::new(value) {
            Ok(s) => Ok(ToolCommand::SetSpeed(s)),
            Err(e) => Err(e),
        }
    }

    /// The arguments that follow the program name.
    pub fn arguments(&self) -> (r: Vec<String>)
        ensures
            views(r@) == arguments_of(*self),
    {
        let r = match self {
            ToolCommand::ListConfigs => vec!["config".to_owned(), "--list".to_owned()],
            ToolCommand::Status => vec!["status".to_owned(), "-a".to_owned()],
            ToolCommand::SetSpeed(s) => vec![
                "set".to_owned(),
                "-s".to_owned(),
                decimal_string(s.value()),
            ],
            ToolCommand::SetAuto => vec!["set".to_owned(), "-a".to_owned()],
        };
        assert(views(r@) =~= arguments_of(*self));
        r
    }
}

/// What came of running a command that changes the fan's settings.
#[derive(Debug, Clone, Copy, PartialEq, Eq, Structural)]
pub enum CommandOutcome {
    /// The tool ran and reported success.
    Succeeded,
    /// The tool ran and reported failure.
    Failed,
    /// The tool could not be started.
    NotLaunched,
}

impl CommandOutcome {
    /// The outcome of a run: `None` when the tool could not be started,
    /// otherwise whether it exited successfully.
    pub fn from_run(exit_success: Option<bool>) -> (r: CommandOutcome)
        ensures
            r == match exit_success {
                None => CommandOutcome::NotLaunched,
                Some(true) => CommandOutcome::Succeeded,
                Some(false) => CommandOutcome::Failed,
            },
    {
        match exit_success {
            None => CommandOutcome::NotLaunched,
            Some(true) => CommandOutcome::Succeeded,
            Some(false) => CommandOutcome::Failed,
        }
    }

    /// Whether the user is to be warned; a failed command never ends the
    /// session.
    pub fn is_warning(&self) -> (r: bool)
        ensures
            r == (*self != CommandOutcome::Succeeded),
    {
        !matches!(self, CommandOutcome::Succeeded)
    }
}

} // verus!
