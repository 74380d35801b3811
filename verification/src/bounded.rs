//! Bounded request parameters: each wraps a primitive and can only be
//! constructed inside its provider-documented range.
//!
//! The fractional parameters (temperature, top-p, the two penalties) are
//! held in hundredths of a unit, so a temperature of 1.30 is the value 130.
//! The wire serializer renders them back with two decimal places.

use vstd::prelude::*;

verus! {

pub const TEMPERATURE_MIN_CENTI: i32 = 0;

pub const TEMPERATURE_MAX_CENTI: i32 = 200;

pub const TEMPERATURE_DEFAULT_CENTI: i32 = 100;

#[derive(Debug, Clone, Copy, PartialEq, Eq, Structural)]
pub enum TemperatureError {
    TooLow,
    TooHigh,
}

/// Sampling temperature in hundredths of a unit, between 0.00 and 2.00.
/// Higher values make the output more random.
#[derive(Debug, Clone, Copy, PartialEq, Eq, Structural)]
pub struct Temperature {
    centi: i32,
}

impl Temperature {
    /// The wrapped value, in hundredths of a unit.
    pub closed spec fn spec_get(self) -> int {
        self.centi as int
    }

    pub open spec fn wf(self) -> bool {
        TEMPERATURE_MIN_CENTI <= self.spec_get() <= TEMPERATURE_MAX_CENTI
    }

    /// Accepts exactly the hundredth-unit values from 0 (0.00) to 200 (2.00).
    pub fn new(centi: i32) -> (r: Result<Self, TemperatureError>)
        ensures
            match r {
                Ok(t) => TEMPERATURE_MIN_CENTI <= centi <= TEMPERATURE_MAX_CENTI
                    && t.spec_get() == centi,
                Err(TemperatureError::TooLow) => centi < TEMPERATURE_MIN_CENTI,
                Err(TemperatureError::TooHigh) => centi > TEMPERATURE_MAX_CENTI,
            },
    {
        if centi < TEMPERATURE_MIN_CENTI {
            Err(TemperatureError::TooLow)
        } else if centi > TEMPERATURE_MAX_CENTI {
            Err(TemperatureError::TooHigh)
        } else {
            Ok(Temperature { centi })
        }
    }

    pub fn get(&self) -> (r: i32)
        ensures
            r == self.spec_get(),
    {
        self.centi
    }

    /// Preset for deterministic output, 0.00.
    pub fn coding() -> (t: Self)
        ensures
            t.spec_get() == 0,
    {
        Temperature { centi: 0 }
    }

    /// Preset for data analysis, 1.00.
    pub fn data_cleaning() -> (t: Self)
        ensures
            t.spec_get() == 100,
    {
        Temperature { centi: 100 }
    }

    /// Preset for conversation, 1.30.
    pub fn conversation() -> (t: Self)
        ensures
            t.spec_get() == 130,
    {
        Temperature { centi: 130 }
    }

    /// Preset for translation, 1.30.
    pub fn translation() -> (t: Self)
        ensures
            t.spec_get() == 130,
    {
        Temperature { centi: 130 }
    }

    /// Preset for creative writing, 2.00.
    pub fn poetry() -> (t: Self)
        ensures
            t.spec_get() == 200,
    {
        Temperature { centi: 200 }
    }
}

impl Default for Temperature {
    fn default() -> (t: Self)
        ensures
            t.spec_get() == TEMPERATURE_DEFAULT_CENTI,
    {
        Temperature { centi: TEMPERATURE_DEFAULT_CENTI }
    }
}

pub const TOP_P_MIN_CENTI: i32 = 0;

pub const TOP_P_MAX_CENTI: i32 = 100;

pub const TOP_P_DEFAULT_CENTI: i32 = 100;

#[derive(Debug, Clone, Copy, PartialEq, Eq, Structural)]
pub enum TopPError {
    TooLow,
    TooHigh,
}

/// Nucleus-sampling cut-off in hundredths of a unit, between 0.00 and 1.00.
#[derive(Debug, Clone, Copy, PartialEq, Eq, Structural)]
pub struct TopP {
    centi: i32,
}

impl TopP {
    /// The wrapped value, in hundredths of a unit.
    pub closed spec fn spec_get(self) -> int {
        self.centi as int
    }

    pub open spec fn wf(self) -> bool {
        TOP_P_MIN_CENTI <= self.spec_get() <= TOP_P_MAX_CENTI
    }

    /// Accepts exactly the hundredth-unit values from 0 (0.00) to 100 (1.00).
    pub fn new(centi: i32) -> (r: Result<Self, TopPError>)
        ensures
            match r {
                Ok(t) => TOP_P_MIN_CENTI <= centi <= TOP_P_MAX_CENTI && t.spec_get() == centi,
                Err(TopPError::TooLow) => centi < TOP_P_MIN_CENTI,
                Err(TopPError::TooHigh) => centi > TOP_P_MAX_CENTI,
            },
    {
        if centi < TOP_P_MIN_CENTI {
            Err(TopPError::TooLow)
        } else if centi > TOP_P_MAX_CENTI {
            Err(TopPError::TooHigh)
        } else {
            Ok(TopP { centi })
        }
    }

    pub fn get(&self) -> (r: i32)
        ensures
            r == self.spec_get(),
    {
        self.centi
    }
}

impl Default for TopP {
    fn default() -> (t: Self)
        ensures
            t.spec_get() == TOP_P_DEFAULT_CENTI,
    {
        TopP { centi: TOP_P_DEFAULT_CENTI }
    }
}

pub const PENALTY_MIN_CENTI: i32 = -200;

pub const PENALTY_MAX_CENTI: i32 = 200;

pub const PENALTY_DEFAULT_CENTI: i32 = 0;

#[derive(Debug, Clone, Copy, PartialEq, Eq, Structural)]
pub enum FrequencyPenaltyError {
    TooLow,
    TooHigh,
}

/// Frequency penalty in hundredths of a unit, between -2.00 and 2.00.
/// Positive values discourage verbatim repetition.
#[derive(Debug, Clone, Copy, PartialEq, Eq, Structural)]
pub struct FrequencyPenalty {
    centi: i32,
}

impl FrequencyPenalty {
    /// The wrapped value, in hundredths of a unit.
    pub closed spec fn spec_get(self) -> int {
        self.centi as int
    }

    pub open spec fn wf(self) -> bool {
        PENALTY_MIN_CENTI <= self.spec_get() <= PENALTY_MAX_CENTI
    }

    /// Accepts exactly the hundredth-unit values from -200 (-2.00) to 200 (2.00).
    pub fn new(centi: i32) -> (r: Result<Self, FrequencyPenaltyError>)
        ensures
            match r {
                Ok(t) => PENALTY_MIN_CENTI <= centi <= PENALTY_MAX_CENTI && t.spec_get() == centi,
                Err(FrequencyPenaltyError::TooLow) => centi < PENALTY_MIN_CENTI,
                Err(FrequencyPenaltyError::TooHigh) => centi > PENALTY_MAX_CENTI,
            },
    {
        if centi < PENALTY_MIN_CENTI {
            Err(FrequencyPenaltyError::TooLow)
        } else if centi > PENALTY_MAX_CENTI {
            Err(FrequencyPenaltyError::TooHigh)
        } else {
            Ok(FrequencyPenalty { centi })
        }
    }

    pub fn get(&self) -> (r: i32)
        ensures
            r == self.spec_get(),
    {
        self.centi
    }
}

impl Default for FrequencyPenalty {
    fn default() -> (t: Self)
        ensures
            t.spec_get() == PENALTY_DEFAULT_CENTI,
    {
        FrequencyPenalty { centi: PENALTY_DEFAULT_CENTI }
    }
}

#[derive(Debug, Clone, Copy, PartialEq, Eq, Structural)]
pub enum PresencePenaltyError {
    TooLow,
    TooHigh,
}

/// Presence penalty in hundredths of a unit, between -2.00 and 2.00.
/// Positive values encourage new topics.
#[derive(Debug, Clone, Copy, PartialEq, Eq, Structural)]
pub struct PresencePenalty {
    centi: i32,
}

impl PresencePenalty {
    /// The wrapped value, in hundredths of a unit.
    pub closed spec fn spec_get(self) -> int {
        self.centi as int
    }

    pub open spec fn wf(self) -> bool {
        PENALTY_MIN_CENTI <= self.spec_get() <= PENALTY_MAX_CENTI
    }

    /// Accepts exactly the hundredth-unit values from -200 (-2.00) to 200 (2.00).
    pub fn new(centi: i32) -> (r: Result<Self, PresencePenaltyError>)
        ensures
            match r {
                Ok(t) => PENALTY_MIN_CENTI <= centi <= PENALTY_MAX_CENTI && t.spec_get() == centi,
                Err(PresencePenaltyError::TooLow) => centi < PENALTY_MIN_CENTI,
                Err(PresencePenaltyError::TooHigh) => centi > PENALTY_MAX_CENTI,
            },
    {
        if centi < PENALTY_MIN_CENTI {
            Err(PresencePenaltyError::TooLow)
        } else if centi > PENALTY_MAX_CENTI {
            Err(PresencePenaltyError::TooHigh)
        } else {
            Ok(PresencePenalty { centi })
        }
    }

    pub fn get(&self) -> (r: i32)
        ensures
            r == self.spec_get(),
    {
        self.centi
    }
}

impl Default for PresencePenalty {
    fn default() -> (t: Self)
        ensures
            t.spec_get() == PENALTY_DEFAULT_CENTI,
    {
        PresencePenalty { centi: PENALTY_DEFAULT_CENTI }
    }
}

pub const MAX_TOKENS_MIN: u16 = 1;

pub const MAX_TOKENS_MAX: u16 = 8000;

pub const MAX_TOKENS_DEFAULT: u16 = 4000;

#[derive(Debug, Clone, Copy, PartialEq, Eq, Structural)]
pub enum MaxTokenError {
    TooLow,
    TooHigh,
}

/// Upper bound on the length of the generated response, between 1 and 8000.
#[derive(Debug, Clone, Copy, PartialEq, Eq, Structural)]
pub struct MaxTokens {
    tokens: u16,
}

impl MaxTokens {
    pub closed spec fn spec_get(self) -> int {
        self.tokens as int
    }

    pub open spec fn wf(self) -> bool {
        MAX_TOKENS_MIN <= self.spec_get() <= MAX_TOKENS_MAX
    }

    /// Accepts exactly the values from 1 to 8000.
    pub fn new(value: u16) -> (r: Result<Self, MaxTokenError>)
        ensures
            match r {
                Ok(t) => MAX_TOKENS_MIN <= value <= MAX_TOKENS_MAX && t.spec_get() == value,
                Err(MaxTokenError::TooLow) => value < MAX_TOKENS_MIN,
                Err(MaxTokenError::TooHigh) => value > MAX_TOKENS_MAX,
            },
    {
        if value < MAX_TOKENS_MIN {
            Err(MaxTokenError::TooLow)
        } else if value > MAX_TOKENS_MAX {
            Err(MaxTokenError::TooHigh)
        } else {
            Ok(MaxTokens { tokens: value })
        }
    }

    pub fn get(&self) -> (r: u16)
        ensures
            r == self.spec_get(),
    {
        self.tokens
    }
}

impl Default for MaxTokens {
    fn default() -> (t: Self)
        ensures
            t.spec_get() == MAX_TOKENS_DEFAULT,
    {
        MaxTokens { tokens: MAX_TOKENS_DEFAULT }
    }
}

pub const TOP_LOG_PROBS_MIN: i32 = 0;

pub const TOP_LOG_PROBS_MAX: i32 = 20;

#[derive(Debug, Clone, Copy, PartialEq, Eq, Structural)]
pub enum TopLogProbsError {
    TooLow,
    TooHigh,
}

/// Number of most likely tokens to report at each position, between 0 and 20.
/// The request must also set `logprobs` for the provider to honour it.
#[derive(Debug, Clone, Copy, PartialEq, Eq, Structural)]
pub struct TopLogProbs {
    count: i32,
}

impl TopLogProbs {
    pub closed spec fn spec_get(self) -> int {
        self.count as int
    }

    pub open spec fn wf(self) -> bool {
        TOP_LOG_PROBS_MIN <= self.spec_get() <= TOP_LOG_PROBS_MAX
    }

    /// Accepts exactly the values from 0 to 20.
    pub fn new(value: i32) -> (r: Result<Self, TopLogProbsError>)
        ensures
            match r {
                Ok(t) => TOP_LOG_PROBS_MIN <= value <= TOP_LOG_PROBS_MAX && t.spec_get() == value,
                Err(TopLogProbsError::TooLow) => value < TOP_LOG_PROBS_MIN,
                Err(TopLogProbsError::TooHigh) => value > TOP_LOG_PROBS_MAX,
            },
    {
        if value < TOP_LOG_PROBS_MIN {
            Err(TopLogProbsError::TooLow)
        } else if value > TOP_LOG_PROBS_MAX {
            Err(TopLogProbsError::TooHigh)
        } else {
            Ok(TopLogProbs { count: value })
        }
    }

    pub fn get(&self) -> (r: i32)
        ensures
            r == self.spec_get(),
    {
        self.count
    }
}

pub const STOP_MAX_LEN: usize = 16;

#[derive(Debug, Clone, Copy, PartialEq, Eq, Structural)]
pub enum StopError {
    TooManyStops,
}

/// Up to 16 sequences at which the provider stops generating.
/// An empty list is valid and is omitted from the wire form.
#[derive(Debug, Clone)]
pub struct Stop {
    items: Vec<String>,
}

impl Stop {
    /// The wrapped sequences.
    pub closed spec fn spec_items(self) -> Seq<Seq<char>> {
        self.items@.map_values(|s: String| s@)
    }

    pub open spec fn wf(self) -> bool {
        self.spec_items().len() <= STOP_MAX_LEN
    }

    /// Accepts exactly the lists of at most 16 sequences.
    pub fn new(stop: Vec<String>) -> (r: Result<Self, StopError>)
        ensures
            match r {
                Ok(s) => stop@.len() <= STOP_MAX_LEN
                    && s.spec_items() == stop@.map_values(|x: String| x@),
                Err(StopError::TooManyStops) => stop@.len() > STOP_MAX_LEN,
            },
    {
        if stop.len() <= STOP_MAX_LEN {
            Ok(Stop { items: stop })
        } else {
            Err(StopError::TooManyStops)
        }
    }

    pub fn get(&self) -> (r: &[String])
        ensures
            r@.map_values(|s: String| s@) == self.spec_items(),
    {
        self.items.as_slice()
    }

    /// Number of stop sequences held.
    pub fn len(&self) -> (r: usize)
        ensures
            r == self.spec_items().len(),
    {
        self.items.len()
    }
}

} // verus!
