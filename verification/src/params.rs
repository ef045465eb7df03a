//! The table of tuning parameters: what each one is called, where it lives
//! on the device, whether it can be written, and which values it takes.

use crate::binary32::Binary32;
pub use crate::cache::ParamState;
pub use crate::value::Value;
use vstd::prelude::*;

verus! {

/// How many parameters the device has.
pub const KIND_COUNT: usize = 40;

/// Commands are below this bound, so that the two flag bits of a read
/// command never collide with them.
pub const COMMAND_LIMIT: u16 = 64;

// Descriptions, one per parameter.
pub const DESC_AECFREEZEONOFF: &'static str = "Adaptive Echo Canceler updates inhibit.";

pub const DESC_AECNORM: &'static str = "Limit on norm of AEC filter coefficients";

pub const DESC_AECPATHCHANGE: &'static str = "AEC Path Change Detection.";

pub const DESC_AECSILENCELEVEL: &'static str = "Threshold for signal detection in AEC [-inf .. 0] dBov (Default: -80dBov = 10log10(1x10-8))";

pub const DESC_AECSILENCEMODE: &'static str = "AEC far-end silence detection status. ";

pub const DESC_AGCDESIREDLEVEL: &'static str = "Target power level of the output signal. [-inf .. 0] dBov (default: -23dBov = 10log10(0.005))";

pub const DESC_AGCGAIN: &'static str = "Current AGC gain factor. [0 .. 60] dB (default: 0.0dB = 20log10(1.0))";

pub const DESC_AGCMAXGAIN: &'static str = "Maximum AGC gain factor. [0 .. 60] dB (default 30dB = 20log10(31.6))";

pub const DESC_AGCONOFF: &'static str = "Automatic Gain Control. ";

pub const DESC_AGCTIME: &'static str = "Ramps-up / down time-constant in seconds.";

pub const DESC_CNIONOFF: &'static str = "Comfort Noise Insertion.";

pub const DESC_DOAANGLE: &'static str = "DOA angle. Current value. Orientation depends on build configuration.";

pub const DESC_ECHOONOFF: &'static str = "Echo suppression.";

pub const DESC_FREEZEONOFF: &'static str = "Adaptive beamformer updates.";

pub const DESC_FSBPATHCHANGE: &'static str = "FSB Path Change Detection.";

pub const DESC_FSBUPDATED: &'static str = "FSB Update Decision.";

pub const DESC_GAMMAVAD_SR: &'static str = "Set the threshold for voice activity detection. [-inf .. 60] dB (default: 3.5dB 20log10(1.5))";

pub const DESC_GAMMA_E: &'static str = "Over-subtraction factor of echo (direct and early components). min .. max attenuation";

pub const DESC_GAMMA_ENL: &'static str = "Over-subtraction factor of non-linear echo. min .. max attenuation";

pub const DESC_GAMMA_ETAIL: &'static str = "Over-subtraction factor of echo (tail components). min .. max attenuation";

pub const DESC_GAMMA_NN: &'static str = "Over-subtraction factor of non- stationary noise. min .. max attenuation";

pub const DESC_GAMMA_NN_SR: &'static str = "Over-subtraction factor of non-stationary noise for ASR. [0.0 .. 3.0] (default: 1.1)";

pub const DESC_GAMMA_NS: &'static str = "Over-subtraction factor of stationary noise. min .. max attenuation";

pub const DESC_GAMMA_NS_SR: &'static str = "Over-subtraction factor of stationary noise for ASR. [0.0 .. 3.0] (default: 1.0)";

pub const DESC_HPFONOFF: &'static str = "High-pass Filter on microphone signals.";

pub const DESC_MIN_NN: &'static str = "Gain-floor for non-stationary noise suppression. [-inf .. 0] dB (default: -10dB = 20log10(0.3))";

pub const DESC_MIN_NN_SR: &'static str = "Gain-floor for non-stationary noise suppression for ASR. [-inf .. 0] dB (default: -10dB = 20log10(0.3))";

pub const DESC_MIN_NS: &'static str = "Gain-floor for stationary noise suppression. [-inf .. 0] dB (default: -16dB = 20log10(0.15))";

pub const DESC_MIN_NS_SR: &'static str = "Gain-floor for stationary noise suppression for ASR. [-inf .. 0] dB (default: -16dB = 20log10(0.15))";

pub const DESC_NLAEC_MODE: &'static str = "Non-Linear AEC training mode.";

pub const DESC_NLATTENONOFF: &'static str = "Non-Linear echo attenuation.";

pub const DESC_NONSTATNOISEONOFF: &'static str = "Non-stationary noise suppression.";

pub const DESC_NONSTATNOISEONOFF_SR: &'static str = "Non-stationary noise suppression for ASR.";

pub const DESC_RT60: &'static str = "Current RT60 estimate in seconds";

pub const DESC_RT60ONOFF: &'static str = "RT60 Estimation for AES.";

pub const DESC_SPEECHDETECTED: &'static str = "Speech detection status.";

pub const DESC_STATNOISEONOFF: &'static str = "Stationary noise suppression.";

pub const DESC_STATNOISEONOFF_SR: &'static str = "Stationary noise suppression for ASR.";

pub const DESC_TRANSIENTONOFF: &'static str = "Transient echo suppression.";

pub const DESC_VOICEACTIVITY: &'static str = "VAD voice activity status.";

// Labels of the values of the discrete parameters.
pub const LABEL_ADAPTATION_ENABLED: &'static str = "0 = Adaptation enabled";

pub const LABEL_ADAPTATION_FROZEN: &'static str = "1 = Freeze adaptation, filter only";

pub const LABEL_NO_PATH_CHANGE: &'static str = "0 = false (no path change detected)";

pub const LABEL_PATH_CHANGE: &'static str = "1 = true (path change detected)";

pub const LABEL_SIGNAL_DETECTED: &'static str = "0 = false (signal detected) ";

pub const LABEL_SILENCE_DETECTED: &'static str = "1 = true (silence detected)";

pub const LABEL_OFF_PADDED: &'static str = "0 = OFF ";

pub const LABEL_ON: &'static str = "1 = ON";

pub const LABEL_OFF: &'static str = "0 = OFF";

pub const LABEL_ANGLE: &'static str = "[0 .. 359] Angle";

pub const LABEL_FSB_NOT_UPDATED: &'static str = "0 = false (FSB was not updated)";

pub const LABEL_FSB_UPDATED: &'static str = "1 = true (FSB was updated)";

pub const LABEL_ON_70_HZ: &'static str = "1 = ON - 70 Hz cut-off";

pub const LABEL_ON_125_HZ: &'static str = "2 = ON - 125 Hz cut-off";

pub const LABEL_ON_180_HZ: &'static str = "3 = ON - 180 Hz cut-off";

pub const LABEL_ON_PHASE_1: &'static str = "1 = ON - phase 1";

pub const LABEL_ON_PHASE_2: &'static str = "2 = ON - phase 2";

pub const LABEL_NO_SPEECH: &'static str = "0 = false (no speech detected)";

pub const LABEL_SPEECH: &'static str = "1 = true (speech detected)";

pub const LABEL_NO_VOICE: &'static str = "0 = false (no voice activity)";

pub const LABEL_VOICE: &'static str = "1 = true (voice activity)";
/// The parameters of the device, in the order of registration.
#[allow(non_camel_case_types)]
#[allow(clippy::upper_case_acronyms)]
#[derive(Clone, Copy, Debug, Hash, PartialEq, Eq, Structural)]
pub enum ParamKind {
    AECFREEZEONOFF,
    AECNORM,
    AECPATHCHANGE,
    AECSILENCELEVEL,
    AECSILENCEMODE,
    AGCDESIREDLEVEL,
    AGCGAIN,
    AGCMAXGAIN,
    AGCONOFF,
    AGCTIME,
    CNIONOFF,
    DOAANGLE,
    ECHOONOFF,
    FREEZEONOFF,
    FSBPATHCHANGE,
    FSBUPDATED,
    GAMMAVAD_SR,
    GAMMA_E,
    GAMMA_ENL,
    GAMMA_ETAIL,
    GAMMA_NN,
    GAMMA_NN_SR,
    GAMMA_NS,
    GAMMA_NS_SR,
    HPFONOFF,
    MIN_NN,
    MIN_NN_SR,
    MIN_NS,
    MIN_NS_SR,
    NLAEC_MODE,
    NLATTENONOFF,
    NONSTATNOISEONOFF,
    NONSTATNOISEONOFF_SR,
    RT60,
    RT60ONOFF,
    SPEECHDETECTED,
    STATNOISEONOFF,
    STATNOISEONOFF_SR,
    TRANSIENTONOFF,
    VOICEACTIVITY,
}

/// Whether the host may write a parameter.
#[derive(Clone, Copy, Debug, PartialEq, Eq, Structural)]
pub enum Access {
    ReadOnly,
    ReadWrite,
}

/// The values that a parameter takes, bounds included.
#[allow(inconsistent_fields)]
#[derive(Clone, Copy, Debug, PartialEq)]
pub enum ParamType {
    /// A choice among labelled values, numbered from 0.
    IntDiscete { min: i32, max: i32 },
    IntRange { min: i32, max: i32 },
    FloatRange { min: Binary32, max: Binary32 },
}

impl ParamType {
    /// Whether the values are integers.
    pub open spec fn spec_is_int(self) -> bool {
        !(self is FloatRange)
    }

    /// The lower bound.
    pub open spec fn lower(self) -> Value {
        match self {
            ParamType::IntDiscete { min, max } => Value::Int(min),
            ParamType::IntRange { min, max } => Value::Int(min),
            ParamType::FloatRange { min, max } => Value::Float(min),
        }
    }

    /// The upper bound.
    pub open spec fn upper(self) -> Value {
        match self {
            ParamType::IntDiscete { min, max } => Value::Int(max),
            ParamType::IntRange { min, max } => Value::Int(max),
            ParamType::FloatRange { min, max } => Value::Float(max),
        }
    }

    /// Whether `value` is of this type's sort: an integer for the two
    /// integer types, a binary32 number for the third.
    pub open spec fn matches_sort(self, value: Value) -> bool {
        self.spec_is_int() == value.is_int()
    }

    /// Whether `value` is of this type's sort and lies within the bounds.
    pub open spec fn admits(self, value: Value) -> bool {
        match (self, value) {
            (ParamType::IntDiscete { min, max }, Value::Int(v)) => min <= v <= max,
            (ParamType::IntRange { min, max }, Value::Int(v)) => min <= v <= max,
            (ParamType::FloatRange { min, max }, Value::Float(v)) => v.within(min, max),
            _ => false,
        }
    }

    /// Whether the values are integers.
    pub fn is_int(&self) -> (r: bool)
        ensures
            r == self.spec_is_int(),
    {
        match self {
            ParamType::FloatRange { .. } => false,
            _ => true,
        }
    }
}

/// What is known of one parameter.
#[derive(Clone, Copy, Debug)]
pub struct ParamDef {
    pub kind: ParamKind,
    pub param_type: ParamType,
    /// The page of the device that holds the parameter.
    pub id: u16,
    /// The address of the parameter within its page.
    pub cmd: u16,
    pub access: Access,
    pub description: &'static str,
    /// The labels of the values of a discrete parameter, in their order.
    pub value_descriptions: &'static [&'static str],
}

impl ParamDef {
    /// Whether this is the definition that the table gives for `kind`.
    pub open spec fn describes(self, kind: ParamKind) -> bool {
        &&& self.kind == kind
        &&& self.param_type == kind.domain()
        &&& self.id == kind.page()
        &&& self.cmd == kind.command()
        &&& self.access == kind.access()
        &&& self.description@ == kind.description_text()
        &&& self.value_descriptions@.len() == kind.labels().len()
        &&& forall|i: int|
            0 <= i < kind.labels().len() ==> (#[trigger] self.value_descriptions@[i])@
                == kind.labels()[i]
    }

    /// The lower bound of the values.
    pub fn min(&self) -> (r: Value)
        ensures
            r == self.param_type.lower(),
    {
        match self.param_type {
            ParamType::IntDiscete { min, max: _ } => Value::Int(min),
            ParamType::IntRange { min, max: _ } => Value::Int(min),
            ParamType::FloatRange { min, max: _ } => Value::Float(min),
        }
    }

    /// The upper bound of the values.
    pub fn max(&self) -> (r: Value)
        ensures
            r == self.param_type.upper(),
    {
        match self.param_type {
            ParamType::IntDiscete { min: _, max } => Value::Int(max),
            ParamType::IntRange { min: _, max } => Value::Int(max),
            ParamType::FloatRange { min: _, max } => Value::Float(max),
        }
    }
}

fn int_discrete(
    kind: ParamKind,
    id: u16,
    cmd: u16,
    access: Access,
    description: &'static str,
    value_descriptions: &'static [&'static str],
) -> (d: ParamDef)
    requires
        1 <= value_descriptions@.len() <= i32::MAX,
    ensures
        d == (ParamDef {
            kind,
            param_type: ParamType::IntDiscete {
                min: 0,
                max: (value_descriptions@.len() - 1) as i32,
            },
            id,
            cmd,
            access,
            description,
            value_descriptions,
        }),
{
    let count: usize = value_descriptions.len();
    ParamDef {
        kind,
        param_type: ParamType::IntDiscete { min: 0, max: (count - 1) as i32 },
        id,
        cmd,
        access,
        description,
        value_descriptions,
    }
}

fn int_range(
    kind: ParamKind,
    id: u16,
    cmd: u16,
    max: i32,
    min: i32,
    access: Access,
    description: &'static str,
    value_descriptions: &'static [&'static str],
) -> (d: ParamDef)
    ensures
        d == (ParamDef {
            kind,
            param_type: ParamType::IntRange { min, max },
            id,
            cmd,
            access,
            description,
            value_descriptions,
        }),
{
    ParamDef {
        kind,
        param_type: ParamType::IntRange { min, max },
        id,
        cmd,
        access,
        description,
        value_descriptions,
    }
}

fn float_range(
    kind: ParamKind,
    id: u16,
    cmd: u16,
    max: u32,
    min: u32,
    access: Access,
    description: &'static str,
) -> (d: ParamDef)
    ensures
        d.kind == kind,
        d.param_type == (ParamType::FloatRange {
            min: Binary32 { bits: min },
            max: Binary32 { bits: max },
        }),
        d.id == id,
        d.cmd == cmd,
        d.access == access,
        d.description == description,
        d.value_descriptions@.len() == 0,
{
    ParamDef {
        kind,
        param_type: ParamType::FloatRange {
            min: Binary32::from_bits(min),
            max: Binary32::from_bits(max),
        },
        id,
        cmd,
        access,
        description,
        value_descriptions: &[],
    }
}

impl ParamKind {
    /// Position in declaration order, which is the order of registration.
    pub open spec fn spec_index(self) -> int {
        match self {
            ParamKind::AECFREEZEONOFF => 0,
            ParamKind::AECNORM => 1,
            ParamKind::AECPATHCHANGE => 2,
            ParamKind::AECSILENCELEVEL => 3,
            ParamKind::AECSILENCEMODE => 4,
            ParamKind::AGCDESIREDLEVEL => 5,
            ParamKind::AGCGAIN => 6,
            ParamKind::AGCMAXGAIN => 7,
            ParamKind::AGCONOFF => 8,
            ParamKind::AGCTIME => 9,
            ParamKind::CNIONOFF => 10,
            ParamKind::DOAANGLE => 11,
            ParamKind::ECHOONOFF => 12,
            ParamKind::FREEZEONOFF => 13,
            ParamKind::FSBPATHCHANGE => 14,
            ParamKind::FSBUPDATED => 15,
            ParamKind::GAMMAVAD_SR => 16,
            ParamKind::GAMMA_E => 17,
            ParamKind::GAMMA_ENL => 18,
            ParamKind::GAMMA_ETAIL => 19,
            ParamKind::GAMMA_NN => 20,
            ParamKind::GAMMA_NN_SR => 21,
            ParamKind::GAMMA_NS => 22,
            ParamKind::GAMMA_NS_SR => 23,
            ParamKind::HPFONOFF => 24,
            ParamKind::MIN_NN => 25,
            ParamKind::MIN_NN_SR => 26,
            ParamKind::MIN_NS => 27,
            ParamKind::MIN_NS_SR => 28,
            ParamKind::NLAEC_MODE => 29,
            ParamKind::NLATTENONOFF => 30,
            ParamKind::NONSTATNOISEONOFF => 31,
            ParamKind::NONSTATNOISEONOFF_SR => 32,
            ParamKind::RT60 => 33,
            ParamKind::RT60ONOFF => 34,
            ParamKind::SPEECHDETECTED => 35,
            ParamKind::STATNOISEONOFF => 36,
            ParamKind::STATNOISEONOFF_SR => 37,
            ParamKind::TRANSIENTONOFF => 38,
            ParamKind::VOICEACTIVITY => 39,
        }
    }

    /// The kind declared at position `i`.
    pub open spec fn kind_at(i: int) -> ParamKind {
        if i == 0 {
            ParamKind::AECFREEZEONOFF
        } else if i == 1 {
            ParamKind::AECNORM
        } else if i == 2 {
            ParamKind::AECPATHCHANGE
        } else if i == 3 {
            ParamKind::AECSILENCELEVEL
        } else if i == 4 {
            ParamKind::AECSILENCEMODE
        } else if i == 5 {
            ParamKind::AGCDESIREDLEVEL
        } else if i == 6 {
            ParamKind::AGCGAIN
        } else if i == 7 {
            ParamKind::AGCMAXGAIN
        } else if i == 8 {
            ParamKind::AGCONOFF
        } else if i == 9 {
            ParamKind::AGCTIME
        } else if i == 10 {
            ParamKind::CNIONOFF
        } else if i == 11 {
            ParamKind::DOAANGLE
        } else if i == 12 {
            ParamKind::ECHOONOFF
        } else if i == 13 {
            ParamKind::FREEZEONOFF
        } else if i == 14 {
            ParamKind::FSBPATHCHANGE
        } else if i == 15 {
            ParamKind::FSBUPDATED
        } else if i == 16 {
            ParamKind::GAMMAVAD_SR
        } else if i == 17 {
            ParamKind::GAMMA_E
        } else if i == 18 {
            ParamKind::GAMMA_ENL
        } else if i == 19 {
            ParamKind::GAMMA_ETAIL
        } else if i == 20 {
            ParamKind::GAMMA_NN
        } else if i == 21 {
            ParamKind::GAMMA_NN_SR
        } else if i == 22 {
            ParamKind::GAMMA_NS
        } else if i == 23 {
            ParamKind::GAMMA_NS_SR
        } else if i == 24 {
            ParamKind::HPFONOFF
        } else if i == 25 {
            ParamKind::MIN_NN
        } else if i == 26 {
            ParamKind::MIN_NN_SR
        } else if i == 27 {
            ParamKind::MIN_NS
        } else if i == 28 {
            ParamKind::MIN_NS_SR
        } else if i == 29 {
            ParamKind::NLAEC_MODE
        } else if i == 30 {
            ParamKind::NLATTENONOFF
        } else if i == 31 {
            ParamKind::NONSTATNOISEONOFF
        } else if i == 32 {
            ParamKind::NONSTATNOISEONOFF_SR
        } else if i == 33 {
            ParamKind::RT60
        } else if i == 34 {
            ParamKind::RT60ONOFF
        } else if i == 35 {
            ParamKind::SPEECHDETECTED
        } else if i == 36 {
            ParamKind::STATNOISEONOFF
        } else if i == 37 {
            ParamKind::STATNOISEONOFF_SR
        } else if i == 38 {
            ParamKind::TRANSIENTONOFF
        } else {
            ParamKind::VOICEACTIVITY
        }
    }

    /// Whether the host may write the parameter.
    pub open spec fn access(self) -> Access {
        match self {
            ParamKind::AECPATHCHANGE
            | ParamKind::AECSILENCEMODE
            | ParamKind::DOAANGLE
            | ParamKind::FSBPATHCHANGE
            | ParamKind::FSBUPDATED
            | ParamKind::RT60
            | ParamKind::SPEECHDETECTED
            | ParamKind::VOICEACTIVITY => Access::ReadOnly,
            _ => Access::ReadWrite,
        }
    }

    /// The page of the device that holds the parameter.
    pub open spec fn page(self) -> u16 {
        match self {
            ParamKind::AECFREEZEONOFF
            | ParamKind::AECNORM
            | ParamKind::AECPATHCHANGE
            | ParamKind::AECSILENCELEVEL
            | ParamKind::AECSILENCEMODE
            | ParamKind::HPFONOFF
            | ParamKind::RT60
            | ParamKind::RT60ONOFF => 18,
            ParamKind::DOAANGLE => 21,
            _ => 19,
        }
    }

    /// The address of the parameter within its page.
    pub open spec fn command(self) -> u16 {
        match self {
            ParamKind::AECFREEZEONOFF => 7,
            ParamKind::AECNORM => 19,
            ParamKind::AECPATHCHANGE => 25,
            ParamKind::AECSILENCELEVEL => 30,
            ParamKind::AECSILENCEMODE => 31,
            ParamKind::AGCDESIREDLEVEL => 2,
            ParamKind::AGCGAIN => 3,
            ParamKind::AGCMAXGAIN => 1,
            ParamKind::AGCONOFF => 0,
            ParamKind::AGCTIME => 4,
            ParamKind::CNIONOFF => 5,
            ParamKind::DOAANGLE => 0,
            ParamKind::ECHOONOFF => 14,
            ParamKind::FREEZEONOFF => 6,
            ParamKind::FSBPATHCHANGE => 24,
            ParamKind::FSBUPDATED => 23,
            ParamKind::GAMMAVAD_SR => 39,
            ParamKind::GAMMA_E => 15,
            ParamKind::GAMMA_ENL => 17,
            ParamKind::GAMMA_ETAIL => 16,
            ParamKind::GAMMA_NN => 12,
            ParamKind::GAMMA_NN_SR => 36,
            ParamKind::GAMMA_NS => 9,
            ParamKind::GAMMA_NS_SR => 35,
            ParamKind::HPFONOFF => 27,
            ParamKind::MIN_NN => 13,
            ParamKind::MIN_NN_SR => 38,
            ParamKind::MIN_NS => 10,
            ParamKind::MIN_NS_SR => 37,
            ParamKind::NLAEC_MODE => 20,
            ParamKind::NLATTENONOFF => 18,
            ParamKind::NONSTATNOISEONOFF => 11,
            ParamKind::NONSTATNOISEONOFF_SR => 34,
            ParamKind::RT60 => 26,
            ParamKind::RT60ONOFF => 28,
            ParamKind::SPEECHDETECTED => 22,
            ParamKind::STATNOISEONOFF => 8,
            ParamKind::STATNOISEONOFF_SR => 33,
            ParamKind::TRANSIENTONOFF => 29,
            ParamKind::VOICEACTIVITY => 32,
        }
    }

    /// The values that the parameter takes.
    pub open spec fn domain(self) -> ParamType {
        match self {
            ParamKind::AECFREEZEONOFF
            | ParamKind::AECPATHCHANGE
            | ParamKind::AECSILENCEMODE
            | ParamKind::AGCONOFF
            | ParamKind::CNIONOFF
            | ParamKind::ECHOONOFF
            | ParamKind::FREEZEONOFF
            | ParamKind::FSBPATHCHANGE
            | ParamKind::FSBUPDATED
            | ParamKind::NLATTENONOFF
            | ParamKind::NONSTATNOISEONOFF
            | ParamKind::NONSTATNOISEONOFF_SR
            | ParamKind::RT60ONOFF
            | ParamKind::SPEECHDETECTED
            | ParamKind::STATNOISEONOFF
            | ParamKind::STATNOISEONOFF_SR
            | ParamKind::TRANSIENTONOFF
            | ParamKind::VOICEACTIVITY => ParamType::IntDiscete { min: 0, max: 1 },
            ParamKind::AECNORM => ParamType::FloatRange {
                min: Binary32 { bits: 0x3e800000 },
                max: Binary32 { bits: 0x41800000 },
            },
            ParamKind::AECSILENCELEVEL => ParamType::FloatRange {
                min: Binary32 { bits: 0x3089705f },
                max: Binary32 { bits: 0x3f800000 },
            },
            ParamKind::AGCDESIREDLEVEL => ParamType::FloatRange {
                min: Binary32 { bits: 0x322bcc77 },
                max: Binary32 { bits: 0x3f7d70a4 },
            },
            ParamKind::AGCGAIN
            | ParamKind::AGCMAXGAIN => ParamType::FloatRange {
                min: Binary32 { bits: 0x3f800000 },
                max: Binary32 { bits: 0x447a0000 },
            },
            ParamKind::AGCTIME => ParamType::FloatRange {
                min: Binary32 { bits: 0x3dcccccd },
                max: Binary32 { bits: 0x3f800000 },
            },
            ParamKind::DOAANGLE => ParamType::IntRange { min: 0, max: 359 },
            ParamKind::GAMMAVAD_SR => ParamType::FloatRange {
                min: Binary32 { bits: 0x00000000 },
                max: Binary32 { bits: 0x447a0000 },
            },
            ParamKind::GAMMA_E
            | ParamKind::GAMMA_ETAIL
            | ParamKind::GAMMA_NN
            | ParamKind::GAMMA_NN_SR
            | ParamKind::GAMMA_NS
            | ParamKind::GAMMA_NS_SR => ParamType::FloatRange {
                min: Binary32 { bits: 0x00000000 },
                max: Binary32 { bits: 0x40400000 },
            },
            ParamKind::GAMMA_ENL => ParamType::FloatRange {
                min: Binary32 { bits: 0x00000000 },
                max: Binary32 { bits: 0x40a00000 },
            },
            ParamKind::HPFONOFF => ParamType::IntDiscete { min: 0, max: 3 },
            ParamKind::MIN_NN
            | ParamKind::MIN_NN_SR
            | ParamKind::MIN_NS
            | ParamKind::MIN_NS_SR => ParamType::FloatRange {
                min: Binary32 { bits: 0x00000000 },
                max: Binary32 { bits: 0x3f800000 },
            },
            ParamKind::NLAEC_MODE => ParamType::IntDiscete { min: 0, max: 2 },
            ParamKind::RT60 => ParamType::FloatRange {
                min: Binary32 { bits: 0x3e800000 },
                max: Binary32 { bits: 0x3f666666 },
            },
        }
    }

    /// What the parameter is, in words.
    pub open spec fn description_text(self) -> Seq<char> {
        match self {
            ParamKind::AECFREEZEONOFF => DESC_AECFREEZEONOFF@,
            ParamKind::AECNORM => DESC_AECNORM@,
            ParamKind::AECPATHCHANGE => DESC_AECPATHCHANGE@,
            ParamKind::AECSILENCELEVEL => DESC_AECSILENCELEVEL@,
            ParamKind::AECSILENCEMODE => DESC_AECSILENCEMODE@,
            ParamKind::AGCDESIREDLEVEL => DESC_AGCDESIREDLEVEL@,
            ParamKind::AGCGAIN => DESC_AGCGAIN@,
            ParamKind::AGCMAXGAIN => DESC_AGCMAXGAIN@,
            ParamKind::AGCONOFF => DESC_AGCONOFF@,
            ParamKind::AGCTIME => DESC_AGCTIME@,
            ParamKind::CNIONOFF => DESC_CNIONOFF@,
            ParamKind::DOAANGLE => DESC_DOAANGLE@,
            ParamKind::ECHOONOFF => DESC_ECHOONOFF@,
            ParamKind::FREEZEONOFF => DESC_FREEZEONOFF@,
            ParamKind::FSBPATHCHANGE => DESC_FSBPATHCHANGE@,
            ParamKind::FSBUPDATED => DESC_FSBUPDATED@,
            ParamKind::GAMMAVAD_SR => DESC_GAMMAVAD_SR@,
            ParamKind::GAMMA_E => DESC_GAMMA_E@,
            ParamKind::GAMMA_ENL => DESC_GAMMA_ENL@,
            ParamKind::GAMMA_ETAIL => DESC_GAMMA_ETAIL@,
            ParamKind::GAMMA_NN => DESC_GAMMA_NN@,
            ParamKind::GAMMA_NN_SR => DESC_GAMMA_NN_SR@,
            ParamKind::GAMMA_NS => DESC_GAMMA_NS@,
            ParamKind::GAMMA_NS_SR => DESC_GAMMA_NS_SR@,
            ParamKind::HPFONOFF => DESC_HPFONOFF@,
            ParamKind::MIN_NN => DESC_MIN_NN@,
            ParamKind::MIN_NN_SR => DESC_MIN_NN_SR@,
            ParamKind::MIN_NS => DESC_MIN_NS@,
            ParamKind::MIN_NS_SR => DESC_MIN_NS_SR@,
            ParamKind::NLAEC_MODE => DESC_NLAEC_MODE@,
            ParamKind::NLATTENONOFF => DESC_NLATTENONOFF@,
            ParamKind::NONSTATNOISEONOFF => DESC_NONSTATNOISEONOFF@,
            ParamKind::NONSTATNOISEONOFF_SR => DESC_NONSTATNOISEONOFF_SR@,
            ParamKind::RT60 => DESC_RT60@,
            ParamKind::RT60ONOFF => DESC_RT60ONOFF@,
            ParamKind::SPEECHDETECTED => DESC_SPEECHDETECTED@,
            ParamKind::STATNOISEONOFF => DESC_STATNOISEONOFF@,
            ParamKind::STATNOISEONOFF_SR => DESC_STATNOISEONOFF_SR@,
            ParamKind::TRANSIENTONOFF => DESC_TRANSIENTONOFF@,
            ParamKind::VOICEACTIVITY => DESC_VOICEACTIVITY@,
        }
    }

    /// The labels of the values, in the order of the values.
    pub open spec fn labels(self) -> Seq<Seq<char>> {
        match self {
            ParamKind::AECFREEZEONOFF
            | ParamKind::FREEZEONOFF => seq![LABEL_ADAPTATION_ENABLED@, LABEL_ADAPTATION_FROZEN@],
            ParamKind::AECPATHCHANGE
            | ParamKind::FSBPATHCHANGE => seq![LABEL_NO_PATH_CHANGE@, LABEL_PATH_CHANGE@],
            ParamKind::AECSILENCEMODE => seq![LABEL_SIGNAL_DETECTED@, LABEL_SILENCE_DETECTED@],
            ParamKind::AGCONOFF => seq![LABEL_OFF_PADDED@, LABEL_ON@],
            ParamKind::CNIONOFF
            | ParamKind::ECHOONOFF
            | ParamKind::NLATTENONOFF
            | ParamKind::NONSTATNOISEONOFF
            | ParamKind::NONSTATNOISEONOFF_SR
            | ParamKind::RT60ONOFF
            | ParamKind::STATNOISEONOFF
            | ParamKind::STATNOISEONOFF_SR
            | ParamKind::TRANSIENTONOFF => seq![LABEL_OFF@, LABEL_ON@],
            ParamKind::DOAANGLE => seq![LABEL_ANGLE@],
            ParamKind::FSBUPDATED => seq![LABEL_FSB_NOT_UPDATED@, LABEL_FSB_UPDATED@],
            ParamKind::HPFONOFF => seq![
                LABEL_OFF@,
                LABEL_ON_70_HZ@,
                LABEL_ON_125_HZ@,
                LABEL_ON_180_HZ@,
            ],
            ParamKind::NLAEC_MODE => seq![LABEL_OFF@, LABEL_ON_PHASE_1@, LABEL_ON_PHASE_2@],
            ParamKind::SPEECHDETECTED => seq![LABEL_NO_SPEECH@, LABEL_SPEECH@],
            ParamKind::VOICEACTIVITY => seq![LABEL_NO_VOICE@, LABEL_VOICE@],
            _ => Seq::empty(),
        }
    }

    /// The name of the kind, as it is declared.
    pub open spec fn name_text(self) -> Seq<char> {
        match self {
            ParamKind::AECFREEZEONOFF => "AECFREEZEONOFF"@,
            ParamKind::AECNORM => "AECNORM"@,
            ParamKind::AECPATHCHANGE => "AECPATHCHANGE"@,
            ParamKind::AECSILENCELEVEL => "AECSILENCELEVEL"@,
            ParamKind::AECSILENCEMODE => "AECSILENCEMODE"@,
            ParamKind::AGCDESIREDLEVEL => "AGCDESIREDLEVEL"@,
            ParamKind::AGCGAIN => "AGCGAIN"@,
            ParamKind::AGCMAXGAIN => "AGCMAXGAIN"@,
            ParamKind::AGCONOFF => "AGCONOFF"@,
            ParamKind::AGCTIME => "AGCTIME"@,
            ParamKind::CNIONOFF => "CNIONOFF"@,
            ParamKind::DOAANGLE => "DOAANGLE"@,
            ParamKind::ECHOONOFF => "ECHOONOFF"@,
            ParamKind::FREEZEONOFF => "FREEZEONOFF"@,
            ParamKind::FSBPATHCHANGE => "FSBPATHCHANGE"@,
            ParamKind::FSBUPDATED => "FSBUPDATED"@,
            ParamKind::GAMMAVAD_SR => "GAMMAVAD_SR"@,
            ParamKind::GAMMA_E => "GAMMA_E"@,
            ParamKind::GAMMA_ENL => "GAMMA_ENL"@,
            ParamKind::GAMMA_ETAIL => "GAMMA_ETAIL"@,
            ParamKind::GAMMA_NN => "GAMMA_NN"@,
            ParamKind::GAMMA_NN_SR => "GAMMA_NN_SR"@,
            ParamKind::GAMMA_NS => "GAMMA_NS"@,
            ParamKind::GAMMA_NS_SR => "GAMMA_NS_SR"@,
            ParamKind::HPFONOFF => "HPFONOFF"@,
            ParamKind::MIN_NN => "MIN_NN"@,
            ParamKind::MIN_NN_SR => "MIN_NN_SR"@,
            ParamKind::MIN_NS => "MIN_NS"@,
            ParamKind::MIN_NS_SR => "MIN_NS_SR"@,
            ParamKind::NLAEC_MODE => "NLAEC_MODE"@,
            ParamKind::NLATTENONOFF => "NLATTENONOFF"@,
            ParamKind::NONSTATNOISEONOFF => "NONSTATNOISEONOFF"@,
            ParamKind::NONSTATNOISEONOFF_SR => "NONSTATNOISEONOFF_SR"@,
            ParamKind::RT60 => "RT60"@,
            ParamKind::RT60ONOFF => "RT60ONOFF"@,
            ParamKind::SPEECHDETECTED => "SPEECHDETECTED"@,
            ParamKind::STATNOISEONOFF => "STATNOISEONOFF"@,
            ParamKind::STATNOISEONOFF_SR => "STATNOISEONOFF_SR"@,
            ParamKind::TRANSIENTONOFF => "TRANSIENTONOFF"@,
            ParamKind::VOICEACTIVITY => "VOICEACTIVITY"@,
        }
    }
    /// Position in declaration order.
    pub fn index(&self) -> (r: usize)
        ensures
            r == self.spec_index(),
            r < KIND_COUNT,
    {
        match self {
            ParamKind::AECFREEZEONOFF => 0,
            ParamKind::AECNORM => 1,
            ParamKind::AECPATHCHANGE => 2,
            ParamKind::AECSILENCELEVEL => 3,
            ParamKind::AECSILENCEMODE => 4,
            ParamKind::AGCDESIREDLEVEL => 5,
            ParamKind::AGCGAIN => 6,
            ParamKind::AGCMAXGAIN => 7,
            ParamKind::AGCONOFF => 8,
            ParamKind::AGCTIME => 9,
            ParamKind::CNIONOFF => 10,
            ParamKind::DOAANGLE => 11,
            ParamKind::ECHOONOFF => 12,
            ParamKind::FREEZEONOFF => 13,
            ParamKind::FSBPATHCHANGE => 14,
            ParamKind::FSBUPDATED => 15,
            ParamKind::GAMMAVAD_SR => 16,
            ParamKind::GAMMA_E => 17,
            ParamKind::GAMMA_ENL => 18,
            ParamKind::GAMMA_ETAIL => 19,
            ParamKind::GAMMA_NN => 20,
            ParamKind::GAMMA_NN_SR => 21,
            ParamKind::GAMMA_NS => 22,
            ParamKind::GAMMA_NS_SR => 23,
            ParamKind::HPFONOFF => 24,
            ParamKind::MIN_NN => 25,
            ParamKind::MIN_NN_SR => 26,
            ParamKind::MIN_NS => 27,
            ParamKind::MIN_NS_SR => 28,
            ParamKind::NLAEC_MODE => 29,
            ParamKind::NLATTENONOFF => 30,
            ParamKind::NONSTATNOISEONOFF => 31,
            ParamKind::NONSTATNOISEONOFF_SR => 32,
            ParamKind::RT60 => 33,
            ParamKind::RT60ONOFF => 34,
            ParamKind::SPEECHDETECTED => 35,
            ParamKind::STATNOISEONOFF => 36,
            ParamKind::STATNOISEONOFF_SR => 37,
            ParamKind::TRANSIENTONOFF => 38,
            ParamKind::VOICEACTIVITY => 39,
        }
    }

    /// The kind declared at position `i`, if there is one.
    pub fn from_index(i: usize) -> (r: Option<ParamKind>)
        ensures
            r == (if i < KIND_COUNT { Some(Self::kind_at(i as int)) } else { None }),
    {
        match i {
            0 => Some(ParamKind::AECFREEZEONOFF),
            1 => Some(ParamKind::AECNORM),
            2 => Some(ParamKind::AECPATHCHANGE),
            3 => Some(ParamKind::AECSILENCELEVEL),
            4 => Some(ParamKind::AECSILENCEMODE),
            5 => Some(ParamKind::AGCDESIREDLEVEL),
            6 => Some(ParamKind::AGCGAIN),
            7 => Some(ParamKind::AGCMAXGAIN),
            8 => Some(ParamKind::AGCONOFF),
            9 => Some(ParamKind::AGCTIME),
            10 => Some(ParamKind::CNIONOFF),
            11 => Some(ParamKind::DOAANGLE),
            12 => Some(ParamKind::ECHOONOFF),
            13 => Some(ParamKind::FREEZEONOFF),
            14 => Some(ParamKind::FSBPATHCHANGE),
            15 => Some(ParamKind::FSBUPDATED),
            16 => Some(ParamKind::GAMMAVAD_SR),
            17 => Some(ParamKind::GAMMA_E),
            18 => Some(ParamKind::GAMMA_ENL),
            19 => Some(ParamKind::GAMMA_ETAIL),
            20 => Some(ParamKind::GAMMA_NN),
            21 => Some(ParamKind::GAMMA_NN_SR),
            22 => Some(ParamKind::GAMMA_NS),
            23 => Some(ParamKind::GAMMA_NS_SR),
            24 => Some(ParamKind::HPFONOFF),
            25 => Some(ParamKind::MIN_NN),
            26 => Some(ParamKind::MIN_NN_SR),
            27 => Some(ParamKind::MIN_NS),
            28 => Some(ParamKind::MIN_NS_SR),
            29 => Some(ParamKind::NLAEC_MODE),
            30 => Some(ParamKind::NLATTENONOFF),
            31 => Some(ParamKind::NONSTATNOISEONOFF),
            32 => Some(ParamKind::NONSTATNOISEONOFF_SR),
            33 => Some(ParamKind::RT60),
            34 => Some(ParamKind::RT60ONOFF),
            35 => Some(ParamKind::SPEECHDETECTED),
            36 => Some(ParamKind::STATNOISEONOFF),
            37 => Some(ParamKind::STATNOISEONOFF_SR),
            38 => Some(ParamKind::TRANSIENTONOFF),
            39 => Some(ParamKind::VOICEACTIVITY),
            _ => None,
        }
    }

    /// The name of the kind, as it is declared.
    pub fn name(&self) -> (r: &'static str)
        ensures
            r@ == self.name_text(),
    {
        match self {
            ParamKind::AECFREEZEONOFF => "AECFREEZEONOFF",
            ParamKind::AECNORM => "AECNORM",
            ParamKind::AECPATHCHANGE => "AECPATHCHANGE",
            ParamKind::AECSILENCELEVEL => "AECSILENCELEVEL",
            ParamKind::AECSILENCEMODE => "AECSILENCEMODE",
            ParamKind::AGCDESIREDLEVEL => "AGCDESIREDLEVEL",
            ParamKind::AGCGAIN => "AGCGAIN",
            ParamKind::AGCMAXGAIN => "AGCMAXGAIN",
            ParamKind::AGCONOFF => "AGCONOFF",
            ParamKind::AGCTIME => "AGCTIME",
            ParamKind::CNIONOFF => "CNIONOFF",
            ParamKind::DOAANGLE => "DOAANGLE",
            ParamKind::ECHOONOFF => "ECHOONOFF",
            ParamKind::FREEZEONOFF => "FREEZEONOFF",
            ParamKind::FSBPATHCHANGE => "FSBPATHCHANGE",
            ParamKind::FSBUPDATED => "FSBUPDATED",
            ParamKind::GAMMAVAD_SR => "GAMMAVAD_SR",
            ParamKind::GAMMA_E => "GAMMA_E",
            ParamKind::GAMMA_ENL => "GAMMA_ENL",
            ParamKind::GAMMA_ETAIL => "GAMMA_ETAIL",
            ParamKind::GAMMA_NN => "GAMMA_NN",
            ParamKind::GAMMA_NN_SR => "GAMMA_NN_SR",
            ParamKind::GAMMA_NS => "GAMMA_NS",
            ParamKind::GAMMA_NS_SR => "GAMMA_NS_SR",
            ParamKind::HPFONOFF => "HPFONOFF",
            ParamKind::MIN_NN => "MIN_NN",
            ParamKind::MIN_NN_SR => "MIN_NN_SR",
            ParamKind::MIN_NS => "MIN_NS",
            ParamKind::MIN_NS_SR => "MIN_NS_SR",
            ParamKind::NLAEC_MODE => "NLAEC_MODE",
            ParamKind::NLATTENONOFF => "NLATTENONOFF",
            ParamKind::NONSTATNOISEONOFF => "NONSTATNOISEONOFF",
            ParamKind::NONSTATNOISEONOFF_SR => "NONSTATNOISEONOFF_SR",
            ParamKind::RT60 => "RT60",
            ParamKind::RT60ONOFF => "RT60ONOFF",
            ParamKind::SPEECHDETECTED => "SPEECHDETECTED",
            ParamKind::STATNOISEONOFF => "STATNOISEONOFF",
            ParamKind::STATNOISEONOFF_SR => "STATNOISEONOFF_SR",
            ParamKind::TRANSIENTONOFF => "TRANSIENTONOFF",
            ParamKind::VOICEACTIVITY => "VOICEACTIVITY",
        }
    }
    /// The definition of the parameter.
    pub fn def(&self) -> (d: ParamDef)
        ensures
            d.describes(*self),
    {
        match self {
            ParamKind::AECFREEZEONOFF => int_discrete(
                ParamKind::AECFREEZEONOFF,
                18,
                7,
                Access::ReadWrite,
                DESC_AECFREEZEONOFF,
                &[LABEL_ADAPTATION_ENABLED, LABEL_ADAPTATION_FROZEN],
            ),
            ParamKind::AECNORM => float_range(
                ParamKind::AECNORM,
                18,
                19,
                0x41800000,
                0x3e800000,
                Access::ReadWrite,
                DESC_AECNORM,
            ),
            ParamKind::AECPATHCHANGE => int_discrete(
                ParamKind::AECPATHCHANGE,
                18,
                25,
                Access::ReadOnly,
                DESC_AECPATHCHANGE,
                &[LABEL_NO_PATH_CHANGE, LABEL_PATH_CHANGE],
            ),
            ParamKind::RT60 => float_range(
                ParamKind::RT60,
                18,
                26,
                0x3f666666,
                0x3e800000,
                Access::ReadOnly,
                DESC_RT60,
            ),
            ParamKind::HPFONOFF => int_discrete(
                ParamKind::HPFONOFF,
                18,
                27,
                Access::ReadWrite,
                DESC_HPFONOFF,
                &[LABEL_OFF, LABEL_ON_70_HZ, LABEL_ON_125_HZ, LABEL_ON_180_HZ],
            ),
            ParamKind::RT60ONOFF => int_discrete(
                ParamKind::RT60ONOFF,
                18,
                28,
                Access::ReadWrite,
                DESC_RT60ONOFF,
                &[LABEL_OFF, LABEL_ON],
            ),
            ParamKind::AECSILENCELEVEL => float_range(
                ParamKind::AECSILENCELEVEL,
                18,
                30,
                0x3f800000,
                0x3089705f,
                Access::ReadWrite,
                DESC_AECSILENCELEVEL,
            ),
            ParamKind::AECSILENCEMODE => int_discrete(
                ParamKind::AECSILENCEMODE,
                18,
                31,
                Access::ReadOnly,
                DESC_AECSILENCEMODE,
                &[LABEL_SIGNAL_DETECTED, LABEL_SILENCE_DETECTED],
            ),
            ParamKind::AGCONOFF => int_discrete(
                ParamKind::AGCONOFF,
                19,
                0,
                Access::ReadWrite,
                DESC_AGCONOFF,
                &[LABEL_OFF_PADDED, LABEL_ON],
            ),
            ParamKind::AGCMAXGAIN => float_range(
                ParamKind::AGCMAXGAIN,
                19,
                1,
                0x447a0000,
                0x3f800000,
                Access::ReadWrite,
                DESC_AGCMAXGAIN,
            ),
            ParamKind::AGCDESIREDLEVEL => float_range(
                ParamKind::AGCDESIREDLEVEL,
                19,
                2,
                0x3f7d70a4,
                0x322bcc77,
                Access::ReadWrite,
                DESC_AGCDESIREDLEVEL,
            ),
            ParamKind::AGCGAIN => float_range(
                ParamKind::AGCGAIN,
                19,
                3,
                0x447a0000,
                0x3f800000,
                Access::ReadWrite,
                DESC_AGCGAIN,
            ),
            ParamKind::AGCTIME => float_range(
                ParamKind::AGCTIME,
                19,
                4,
                0x3f800000,
                0x3dcccccd,
                Access::ReadWrite,
                DESC_AGCTIME,
            ),
            ParamKind::CNIONOFF => int_discrete(
                ParamKind::CNIONOFF,
                19,
                5,
                Access::ReadWrite,
                DESC_CNIONOFF,
                &[LABEL_OFF, LABEL_ON],
            ),
            ParamKind::FREEZEONOFF => int_discrete(
                ParamKind::FREEZEONOFF,
                19,
                6,
                Access::ReadWrite,
                DESC_FREEZEONOFF,
                &[LABEL_ADAPTATION_ENABLED, LABEL_ADAPTATION_FROZEN],
            ),
            ParamKind::STATNOISEONOFF => int_discrete(
                ParamKind::STATNOISEONOFF,
                19,
                8,
                Access::ReadWrite,
                DESC_STATNOISEONOFF,
                &[LABEL_OFF, LABEL_ON],
            ),
            ParamKind::GAMMA_NS => float_range(
                ParamKind::GAMMA_NS,
                19,
                9,
                0x40400000,
                0x00000000,
                Access::ReadWrite,
                DESC_GAMMA_NS,
            ),
            ParamKind::MIN_NS => float_range(
                ParamKind::MIN_NS,
                19,
                10,
                0x3f800000,
                0x00000000,
                Access::ReadWrite,
                DESC_MIN_NS,
            ),
            ParamKind::NONSTATNOISEONOFF => int_discrete(
                ParamKind::NONSTATNOISEONOFF,
                19,
                11,
                Access::ReadWrite,
                DESC_NONSTATNOISEONOFF,
                &[LABEL_OFF, LABEL_ON],
            ),
            ParamKind::GAMMA_NN => float_range(
                ParamKind::GAMMA_NN,
                19,
                12,
                0x40400000,
                0x00000000,
                Access::ReadWrite,
                DESC_GAMMA_NN,
            ),
            ParamKind::MIN_NN => float_range(
                ParamKind::MIN_NN,
                19,
                13,
                0x3f800000,
                0x00000000,
                Access::ReadWrite,
                DESC_MIN_NN,
            ),
            ParamKind::ECHOONOFF => int_discrete(
                ParamKind::ECHOONOFF,
                19,
                14,
                Access::ReadWrite,
                DESC_ECHOONOFF,
                &[LABEL_OFF, LABEL_ON],
            ),
            ParamKind::GAMMA_E => float_range(
                ParamKind::GAMMA_E,
                19,
                15,
                0x40400000,
                0x00000000,
                Access::ReadWrite,
                DESC_GAMMA_E,
            ),
            ParamKind::GAMMA_ETAIL => float_range(
                ParamKind::GAMMA_ETAIL,
                19,
                16,
                0x40400000,
                0x00000000,
                Access::ReadWrite,
                DESC_GAMMA_ETAIL,
            ),
            ParamKind::GAMMA_ENL => float_range(
                ParamKind::GAMMA_ENL,
                19,
                17,
                0x40a00000,
                0x00000000,
                Access::ReadWrite,
                DESC_GAMMA_ENL,
            ),
            ParamKind::NLATTENONOFF => int_discrete(
                ParamKind::NLATTENONOFF,
                19,
                18,
                Access::ReadWrite,
                DESC_NLATTENONOFF,
                &[LABEL_OFF, LABEL_ON],
            ),
            ParamKind::NLAEC_MODE => int_discrete(
                ParamKind::NLAEC_MODE,
                19,
                20,
                Access::ReadWrite,
                DESC_NLAEC_MODE,
                &[LABEL_OFF, LABEL_ON_PHASE_1, LABEL_ON_PHASE_2],
            ),
            ParamKind::SPEECHDETECTED => int_discrete(
                ParamKind::SPEECHDETECTED,
                19,
                22,
                Access::ReadOnly,
                DESC_SPEECHDETECTED,
                &[LABEL_NO_SPEECH, LABEL_SPEECH],
            ),
            ParamKind::FSBUPDATED => int_discrete(
                ParamKind::FSBUPDATED,
                19,
                23,
                Access::ReadOnly,
                DESC_FSBUPDATED,
                &[LABEL_FSB_NOT_UPDATED, LABEL_FSB_UPDATED],
            ),
            ParamKind::FSBPATHCHANGE => int_discrete(
                ParamKind::FSBPATHCHANGE,
                19,
                24,
                Access::ReadOnly,
                DESC_FSBPATHCHANGE,
                &[LABEL_NO_PATH_CHANGE, LABEL_PATH_CHANGE],
            ),
            ParamKind::TRANSIENTONOFF => int_discrete(
                ParamKind::TRANSIENTONOFF,
                19,
                29,
                Access::ReadWrite,
                DESC_TRANSIENTONOFF,
                &[LABEL_OFF, LABEL_ON],
            ),
            ParamKind::VOICEACTIVITY => int_discrete(
                ParamKind::VOICEACTIVITY,
                19,
                32,
                Access::ReadOnly,
                DESC_VOICEACTIVITY,
                &[LABEL_NO_VOICE, LABEL_VOICE],
            ),
            ParamKind::STATNOISEONOFF_SR => int_discrete(
                ParamKind::STATNOISEONOFF_SR,
                19,
                33,
                Access::ReadWrite,
                DESC_STATNOISEONOFF_SR,
                &[LABEL_OFF, LABEL_ON],
            ),
            ParamKind::NONSTATNOISEONOFF_SR => int_discrete(
                ParamKind::NONSTATNOISEONOFF_SR,
                19,
                34,
                Access::ReadWrite,
                DESC_NONSTATNOISEONOFF_SR,
                &[LABEL_OFF, LABEL_ON],
            ),
            ParamKind::GAMMA_NS_SR => float_range(
                ParamKind::GAMMA_NS_SR,
                19,
                35,
                0x40400000,
                0x00000000,
                Access::ReadWrite,
                DESC_GAMMA_NS_SR,
            ),
            ParamKind::GAMMA_NN_SR => float_range(
                ParamKind::GAMMA_NN_SR,
                19,
                36,
                0x40400000,
                0x00000000,
                Access::ReadWrite,
                DESC_GAMMA_NN_SR,
            ),
            ParamKind::MIN_NS_SR => float_range(
                ParamKind::MIN_NS_SR,
                19,
                37,
                0x3f800000,
                0x00000000,
                Access::ReadWrite,
                DESC_MIN_NS_SR,
            ),
            ParamKind::MIN_NN_SR => float_range(
                ParamKind::MIN_NN_SR,
                19,
                38,
                0x3f800000,
                0x00000000,
                Access::ReadWrite,
                DESC_MIN_NN_SR,
            ),
            ParamKind::GAMMAVAD_SR => float_range(
                ParamKind::GAMMAVAD_SR,
                19,
                39,
                0x447a0000,
                0x00000000,
                Access::ReadWrite,
                DESC_GAMMAVAD_SR,
            ),
            ParamKind::DOAANGLE => int_range(
                ParamKind::DOAANGLE,
                21,
                0,
                359,
                0,
                Access::ReadOnly,
                DESC_DOAANGLE,
                &[LABEL_ANGLE],
            ),
        }
    }
}

/// Why a text is not a value of a parameter.
#[derive(Clone, Copy, Debug, PartialEq, Eq, Structural)]
pub enum ParseError {
    /// The parameter takes integers, and the text is not a 32-bit integer.
    MustBeInt,
    /// The parameter takes binary32 numbers, and the text is not one.
    MustBeFloat,
}

/// What `str::parse::<i32>` makes of a text: the integer, if the text is
/// one.
pub uninterp spec fn parsed_i32(text: Seq<char>) -> Option<i32>;

/// Calls `str::parse::<i32>` and drops the error. What comes back depends
/// on the text alone; the contract gives it the name `parsed_i32` and
/// claims nothing more.
#[verifier::external_body]
fn parse_i32(text: &str) -> (r: Option<i32>)
    ensures
        r == parsed_i32(text@),
{
    text.parse::<i32>().ok()
}

impl ParamKind {
    /// The value of this parameter that a text stands for, where `as_int`
    /// is the text read as an integer and `as_float` the text read as a
    /// binary32 number.
    pub open spec fn parsed_value(self, as_int: Option<i32>, as_float: Option<Binary32>) -> Result<
        Value,
        ParseError,
    > {
        if self.domain().spec_is_int() {
            match as_int {
                Some(v) => Ok(Value::Int(v)),
                None => Err(ParseError::MustBeInt),
            }
        } else {
            match as_float {
                Some(v) => Ok(Value::Float(v)),
                None => Err(ParseError::MustBeFloat),
            }
        }
    }

    /// The value of this parameter that a text stands for, from what the
    /// text gives when read as an integer and as a binary32 number.
    pub fn value_from_parsed(&self, as_int: Option<i32>, as_float: Option<Binary32>) -> (r: Result<
        Value,
        ParseError,
    >)
        ensures
            r == self.parsed_value(as_int, as_float),
    {
        if self.def().param_type.is_int() {
            match as_int {
                Some(v) => Ok(Value::Int(v)),
                None => Err(ParseError::MustBeInt),
            }
        } else {
            match as_float {
                Some(v) => Ok(Value::Float(v)),
                None => Err(ParseError::MustBeFloat),
            }
        }
    }

    /// The value of this parameter that `string` stands for. The caller
    /// reads the text as a binary32 number and hands the pattern in as
    /// `as_float`, `None` where the text is no such number.
    pub fn parse_value(&self, string: &str, as_float: Option<Binary32>) -> (r: Result<
        Value,
        ParseError,
    >)
        ensures
            r == self.parsed_value(parsed_i32(string@), as_float),
    {
        self.value_from_parsed(parse_i32(string), as_float)
    }
}

impl ParamKind {
    /// What the table guarantees of every definition: the command leaves
    /// the two flag bits of a read command free, the bounds are in order,
    /// a discrete parameter has one label for each value from 0 to its
    /// upper bound, and a binary32 parameter has finite bounds and no
    /// labels.
    pub proof fn lemma_definition_well_formed(self)
        ensures
            self.command() < COMMAND_LIMIT,
            self.domain().admits(self.domain().lower()),
            self.domain().admits(self.domain().upper()),
            match self.domain() {
                ParamType::IntDiscete { min, max } => min == 0 && self.labels().len() == max + 1,
                ParamType::IntRange { min, max } => min <= max,
                ParamType::FloatRange { min, max } => min.is_finite() && max.is_finite()
                    && min.at_most(max) && self.labels().len() == 0,
            },
    {
    }

    /// No two parameters share an address: the page and the command
    /// together determine the kind.
    pub proof fn lemma_address_determines_kind(self, other: ParamKind)
        requires
            self.page() == other.page(),
            self.command() == other.command(),
        ensures
            self == other,
    {
    }
}

} // verus!
