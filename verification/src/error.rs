//! What can go wrong, and how it is worded.

use vstd::prelude::*;
use crate::config::ConfigError;
use crate::zero::ZeroError;

verus! {

/// Why a run failed.
#[derive(Debug, PartialEq, Eq)]
pub enum Error {
    /// The text names no family of drag curves.
    InvalidBcKind(String),
    /// The parameters of a simulation break a rule.
    Config(ConfigError),
    /// Zeroing failed.
    Zero(ZeroError),
}

/// Why a text is not a quantity.
#[derive(Clone, Copy, Debug, PartialEq, Eq, Structural)]
pub enum ParseQuantityError {
    /// No space parts a value from a unit.
    NoSeparator,
    /// The unit is none of the quantity's units.
    UnknownUnit,
    /// The value is no number.
    ValueParseError,
}

/// A failure to read a quantity, as reported to the user.
#[derive(Clone, Copy, Debug, PartialEq, Eq, Structural)]
pub struct MyParseQuantityError {
    pub error: ParseQuantityError,
}

impl MyParseQuantityError {
    /// The wording of this failure.
    pub open spec fn text(self) -> Seq<char> {
        match self.error {
            ParseQuantityError::NoSeparator => "No Separator"@,
            ParseQuantityError::UnknownUnit => "Unknown Unit"@,
            ParseQuantityError::ValueParseError => "Value Parse Error"@,
        }
    }

    /// Words this failure.
    pub fn to_string(&self) -> (s: String)
        ensures
            s@ == self.text(),
    {
        match self.error {
            ParseQuantityError::NoSeparator => "No Separator".to_owned(),
            ParseQuantityError::UnknownUnit => "Unknown Unit".to_owned(),
            ParseQuantityError::ValueParseError => "Value Parse Error".to_owned(),
        }
    }
}

impl ConfigError {
    /// The wording of this refusal.
    pub open spec fn text(self) -> Seq<char> {
        match self {
            ConfigError::NonPositiveTimeStep => "time step must be positive"@,
            ConfigError::NonPositiveBc => "ballistic coefficient must be positive"@,
            ConfigError::NonPositiveMass => "mass must be positive"@,
            ConfigError::NonPositiveCaliber => "caliber must be positive"@,
            ConfigError::NonPositiveTemperature => "temperature must be positive"@,
            ConfigError::NonPositivePressure => "pressure must be positive"@,
            ConfigError::HumidityOutOfRange => "humidity must lie between zero and one"@,
        }
    }

    /// Words this refusal.
    pub fn to_string(&self) -> (s: String)
        ensures
            s@ == self.text(),
    {
        match self {
            ConfigError::NonPositiveTimeStep => "time step must be positive".to_owned(),
            ConfigError::NonPositiveBc => "ballistic coefficient must be positive".to_owned(),
            ConfigError::NonPositiveMass => "mass must be positive".to_owned(),
            ConfigError::NonPositiveCaliber => "caliber must be positive".to_owned(),
            ConfigError::NonPositiveTemperature => "temperature must be positive".to_owned(),
            ConfigError::NonPositivePressure => "pressure must be positive".to_owned(),
            ConfigError::HumidityOutOfRange => "humidity must lie between zero and one".to_owned(),
        }
    }
}

impl ZeroError {
    /// The wording of this failure.
    pub open spec fn text(self) -> Seq<char> {
        match self {
            ZeroError::NonPositiveDistance => "target distance must be positive"@,
            ZeroError::TargetNotReached => "trajectory ended short of the target"@,
            ZeroError::DidNotConverge => "zeroing did not converge"@,
        }
    }

    /// Words this failure.
    pub fn to_string(&self) -> (s: String)
        ensures
            s@ == self.text(),
    {
        match self {
            ZeroError::NonPositiveDistance => "target distance must be positive".to_owned(),
            ZeroError::TargetNotReached => "trajectory ended short of the target".to_owned(),
            ZeroError::DidNotConverge => "zeroing did not converge".to_owned(),
        }
    }
}

} // verus!
