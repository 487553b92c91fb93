//! The front end's state: configurations, selection, status and fan speed.

use vstd::prelude::*;
use crate::command::{FanSpeed, SpeedError, ToolCommand};
use crate::status::StatusSnapshot;
use crate::text::views;

verus! {

/// `r` is the position of the first entry of `configs` equal to `name`, or
/// `None` when no entry is.
pub open spec fn is_first_match(configs: Seq<Seq<char>>, name: Seq<char>, r: Option<usize>) -> bool {
    match r {
        Some(i) => {
            &&& i < configs.len()
            &&& configs[i as int] == name
            &&& forall|j: int| 0 <= j < i ==> configs[j] != name
        },
        None => forall|j: int| 0 <= j < configs.len() ==> configs[j] != name,
    }
}

/// What a [`Veltrix`] holds, as mathematical values.
pub struct VeltrixModel {
    pub configs: Seq<Seq<char>>,
    pub selected: Option<usize>,
    pub laptop_model: Seq<char>,
    pub status: (Seq<char>, Seq<char>, Seq<char>),
    pub fan_speed: u8,
}

impl VeltrixModel {
    /// The state after a refresh from the lines of a status report: the whole
    /// status is read anew, all else stays.
    pub open spec fn refreshed(self, status_lines: Seq<Seq<char>>) -> VeltrixModel {
        VeltrixModel { status: StatusSnapshot::of_lines(status_lines), ..self }
    }
}

/// Refreshing depends on the status report alone: two refreshes from the
/// same report give the same status, whatever the states before, and a
/// second refresh from it changes nothing.
pub proof fn lemma_refresh_idempotent(a: VeltrixModel, b: VeltrixModel, status_lines: Seq<Seq<char>>)
    ensures
        a.refreshed(status_lines).status == b.refreshed(status_lines).status,
        a.refreshed(status_lines).refreshed(status_lines) == a.refreshed(status_lines),
{
}

/// The front end's state.
pub struct Veltrix {
    configs: Vec<String>,
    selected: Option<usize>,
    laptop_model: String,
    status: StatusSnapshot,
    fan_speed: FanSpeed,
}

impl View for Veltrix {
    type V = VeltrixModel;

    closed spec fn view(&self) -> VeltrixModel {
        VeltrixModel {
            configs: views(self.configs@),
            selected: self.selected,
            laptop_model: self.laptop_model@,
            status: self.status.fields(),
            fan_speed: self.fan_speed.spec_value(),
        }
    }
}

/// The position of the first of `configs` equal to `name`.
pub fn find_config(configs: &Vec<String>, name: &String) -> (r: Option<usize>)
    ensures
        is_first_match(views(configs@), name@, r),
{
    let n = configs.len();
    for i in 0..n
        invariant
            n == configs@.len(),
            forall|j: int| 0 <= j < i ==> views(configs@)[j] != name@,
    {
        if configs[i] == *name {
            return Some(i);
        }
    }
    None
}

impl Veltrix {
    #[verifier::type_invariant]
    closed spec fn selection_valid(&self) -> bool {
        self.selected is Some ==> self.selected->0 < self.configs@.len()
    }

    /// The application's name.
    pub fn name() -> (r: &'static str)
        ensures
            r@ == "Veltrix"@,
    {
        "Veltrix"
    }

    /// The state at start-up: the configuration named like the machine is
    /// selected, if there is one; the status comes from the lines of a status
    /// report; the manual speed is 0.
    pub fn new(configs: Vec<String>, laptop_model: String, status_lines: &Vec<String>) -> (r: Veltrix)
        ensures
            r@.configs == views(configs@),
            r@.laptop_model == laptop_model@,
            is_first_match(views(configs@), laptop_model@, r@.selected),
            r@.status == StatusSnapshot::of_lines(views(status_lines@)),
            r@.fan_speed == 0,
    {
        let selected = find_config(&configs, &laptop_model);
        Veltrix {
            configs,
            selected,
            laptop_model,
            status: StatusSnapshot::from_lines(status_lines),
            fan_speed: FanSpeed::zero(),
        }
    }

    /// Replaces the whole status with what a new status report gives.
    pub fn refresh(&mut self, status_lines: &Vec<String>)
        ensures
            final(self)@ == old(self)@.refreshed(views(status_lines@)),
    {
        proof {
            use_type_invariant(&*self);
        }
        self.status = StatusSnapshot::from_lines(status_lines);
    }

    /// Selects the configuration at `index`, if there is one.
    pub fn select(&mut self, index: usize) -> (r: bool)
        ensures
            r == (index < old(self)@.configs.len()),
            final(self)@ == (VeltrixModel {
                selected: if r { Some(index) } else { old(self)@.selected },
                ..old(self)@
            }),
    {
        if index < self.configs.len() {
            self.selected = Some(index);
            true
        } else {
            false
        }
    }

    /// Sets the manual fan speed, if `value` lies in `0..=96`; otherwise
    /// leaves the state as it was.
    pub fn set_fan_speed_value(&mut self, value: i64) -> (r: Result<(), SpeedError>)
        ensures
            r is Ok <==> 0 <= value <= 96,
            r is Err ==> r->Err_0 == SpeedError::OutOfRange,
            final(self)@ == (VeltrixModel {
                fan_speed: if r is Ok { value as u8 } else { old(self)@.fan_speed },
                ..old(self)@
            }),
    {
        proof {
            use_type_invariant(&*self);
        }
        match FanSpeed::new(value) {
            Ok(s) => {
                self.fan_speed = s;
                Ok(())
            },
            Err(e) => Err(e),
        }
    }

    /// The command that applies the chosen manual speed.
    pub fn apply_fan_speed(&self) -> (r: ToolCommand)
        ensures
            r matches ToolCommand::SetSpeed(s) && s.spec_value() == self@.fan_speed,
    {
        ToolCommand::SetSpeed(self.fan_speed)
    }

    /// The command that hands the fan back to automatic control.
    pub fn set_fan_speed_to_auto(&self) -> (r: ToolCommand)
        ensures
            r == ToolCommand::SetAuto,
    {
        ToolCommand::SetAuto
    }

    /// The available configurations.
    pub fn configs(&self) -> (r: &Vec<String>)
        ensures
            views(r@) == self@.configs,
    {
        &self.configs
    }

    /// The position of the selected configuration, if any.
    pub fn selected(&self) -> (r: Option<usize>)
        ensures
            r == self@.selected,
            r is Some ==> r->0 < self@.configs.len(),
    {
        proof {
            use_type_invariant(self);
        }
        self.selected
    }

    /// The name of the selected configuration, if any.
    pub fn selected_config(&self) -> (r: Option<&String>)
        ensures
            match self@.selected {
                Some(i) => r is Some && r->0@ == self@.configs[i as int],
                None => r is None,
            },
    {
        proof {
            use_type_invariant(self);
        }
        match self.selected {
            Some(i) => Some(&self.configs[i]),
            None => None,
        }
    }

    /// The machine's model name.
    pub fn laptop_model(&self) -> (r: &String)
        ensures
            r@ == self@.laptop_model,
    {
        &self.laptop_model
    }

    /// The latest status reading.
    pub fn status(&self) -> (r: &StatusSnapshot)
        ensures
            r.fields() == self@.status,
    {
        &self.status
    }

    /// The chosen manual fan speed.
    pub fn fan_speed_value(&self) -> (r: u8)
        ensures
            r == self@.fan_speed,
            r <= 96,
    {
        self.fan_speed.value()
    }
}

} // verus!
