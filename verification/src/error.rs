//! What can go wrong, and the message for each failure.

use vstd::prelude::*;
use vstd::string::*;

verus! {

/// A field of the mission document that an operation rewrites.
#[derive(Clone, Copy, Debug, PartialEq, Eq, Structural)]
pub enum Field {
    StartTime,
    CloudPreset,
    CloudBase,
    GroundWindSpeed,
    GroundWindHeading,
    Wind2000Speed,
    Wind2000Heading,
    Wind8000Speed,
    Wind8000Heading,
    Temperature,
    Qnh,
}

/// Why `rand` refused a list of weights.
#[derive(Clone, Copy, Debug, PartialEq, Eq, Structural)]
pub enum WeightFault {
    /// The list is empty.
    NoItem,
    /// A weight is negative.
    Invalid,
    /// Every weight is zero.
    AllZero,
    /// The list is too long, or its weights add up past the machine's range.
    TooMany,
}

/// A configuration that cannot be used.
#[derive(Debug, PartialEq, Eq)]
pub enum ConfigError {
    /// A weather profile inherits from a name that the weather table lacks.
    InheritMissing { profile: String, target: String },
    /// A weather profile inherits from an entry that is not a table.
    InheritNotTable { profile: String, target: String },
    /// A preset lists a weather profile that the configuration lacks.
    WeatherNotFound { name: String },
    /// The weather profile applied declares no cloud preset.
    CloudPresetMissing { profile: String },
    /// The range drawn from has its minimum above its maximum.
    EmptyRange { field: Field },
    /// The chance of a wind flip lies outside 0 to 1.
    FlipChance,
    /// A wind speed, summed over the altitude bands, leaves the range of
    /// the machine's integers.
    SpeedOverflow { field: Field },
    /// The weights of a preset's weather profiles admit no choice.
    Weights { fault: WeightFault },
}

/// A document that lacks what an operation looks for.
#[derive(Clone, Copy, Debug, PartialEq, Eq, Structural)]
pub enum PatchError {
    /// The anchor of a field that the configuration sets was not found.
    AnchorNotFound { field: Field },
    /// The pattern engine refused the anchor's pattern.
    BadAnchor,
    /// The file name has no extension to put a suffix before.
    ExtensionMissing,
}

/// What is wrong with a time of day.
#[derive(Clone, Copy, Debug, PartialEq, Eq, Structural)]
pub enum TimeFault {
    /// More than three components.
    Components,
    /// The first component is no integer.
    Hours,
    /// The second component is no integer.
    Minutes,
    /// The third component is no integer.
    Seconds,
}

/// A time of day that cannot be read.
#[derive(Debug, PartialEq, Eq)]
pub struct FormatError {
    pub fault: TimeFault,
    /// The time as the configuration gives it.
    pub time: String,
}

/// Any failure of the library.
#[derive(Debug, PartialEq, Eq)]
pub enum RepackError {
    Config(ConfigError),
    Patch(PatchError),
    Format(FormatError),
    /// No mission file was named and none was recorded.
    MizNotFound,
}

/// A configuration error with its names as sequences of characters.
pub enum ConfigFault {
    InheritMissing { profile: Seq<char>, target: Seq<char> },
    InheritNotTable { profile: Seq<char>, target: Seq<char> },
    WeatherNotFound { name: Seq<char> },
    CloudPresetMissing { profile: Seq<char> },
    EmptyRange { field: Field },
    FlipChance,
    SpeedOverflow { field: Field },
    Weights { fault: WeightFault },
}

/// A format error with its time as a sequence of characters.
pub struct FormatFault {
    pub fault: TimeFault,
    pub time: Seq<char>,
}

/// Any failure, with its texts as sequences of characters.
pub enum Failure {
    Config(ConfigFault),
    Patch(PatchError),
    Format(FormatFault),
    MizNotFound,
}

impl View for ConfigError {
    type V = ConfigFault;

    open spec fn view(&self) -> ConfigFault {
        match *self {
            ConfigError::InheritMissing { profile, target } => ConfigFault::InheritMissing {
                profile: profile@,
                target: target@,
            },
            ConfigError::InheritNotTable { profile, target } => ConfigFault::InheritNotTable {
                profile: profile@,
                target: target@,
            },
            ConfigError::WeatherNotFound { name } => ConfigFault::WeatherNotFound { name: name@ },
            ConfigError::CloudPresetMissing { profile } => ConfigFault::CloudPresetMissing {
                profile: profile@,
            },
            ConfigError::EmptyRange { field } => ConfigFault::EmptyRange { field },
            ConfigError::FlipChance => ConfigFault::FlipChance,
            ConfigError::SpeedOverflow { field } => ConfigFault::SpeedOverflow { field },
            ConfigError::Weights { fault } => ConfigFault::Weights { fault },
        }
    }
}

impl View for FormatError {
    type V = FormatFault;

    open spec fn view(&self) -> FormatFault {
        FormatFault { fault: self.fault, time: self.time@ }
    }
}

impl View for RepackError {
    type V = Failure;

    open spec fn view(&self) -> Failure {
        match *self {
            RepackError::Config(e) => Failure::Config(e@),
            RepackError::Patch(e) => Failure::Patch(e),
            RepackError::Format(e) => Failure::Format(e@),
            RepackError::MizNotFound => Failure::MizNotFound,
        }
    }
}

impl Clone for ConfigError {
    fn clone(&self) -> (copy: ConfigError)
        ensures
            copy@ == self@,
    {
        match self {
            ConfigError::InheritMissing { profile, target } => ConfigError::InheritMissing {
                profile: profile.clone(),
                target: target.clone(),
            },
            ConfigError::InheritNotTable { profile, target } => ConfigError::InheritNotTable {
                profile: profile.clone(),
                target: target.clone(),
            },
            ConfigError::WeatherNotFound { name } => ConfigError::WeatherNotFound {
                name: name.clone(),
            },
            ConfigError::CloudPresetMissing { profile } => ConfigError::CloudPresetMissing {
                profile: profile.clone(),
            },
            ConfigError::EmptyRange { field } => ConfigError::EmptyRange { field: *field },
            ConfigError::FlipChance => ConfigError::FlipChance,
            ConfigError::SpeedOverflow { field } => ConfigError::SpeedOverflow { field: *field },
            ConfigError::Weights { fault } => ConfigError::Weights { fault: *fault },
        }
    }
}

impl Clone for FormatError {
    fn clone(&self) -> (copy: FormatError)
        ensures
            copy@ == self@,
    {
        FormatError { fault: self.fault, time: self.time.clone() }
    }
}

impl Clone for RepackError {
    fn clone(&self) -> (copy: RepackError)
        ensures
            copy@ == self@,
    {
        match self {
            RepackError::Config(e) => RepackError::Config(e.clone()),
            RepackError::Patch(e) => RepackError::Patch(*e),
            RepackError::Format(e) => RepackError::Format(e.clone()),
            RepackError::MizNotFound => RepackError::MizNotFound,
        }
    }
}

/// A text or a failure, as sequences of characters.
pub open spec fn outcome(result: Result<String, RepackError>) -> Result<Seq<char>, Failure> {
    match result {
        Ok(text) => Ok(text@),
        Err(e) => Err(e@),
    }
}

/// A patch that may have failed, as the outcome of an operation.
pub open spec fn lifted(result: Result<Seq<char>, PatchError>) -> Result<Seq<char>, Failure> {
    match result {
        Ok(text) => Ok(text),
        Err(e) => Err(Failure::Patch(e)),
    }
}

/// How a message names the key of a field.
pub open spec fn field_label(field: Field) -> Seq<char> {
    match field {
        Field::StartTime => "start_time key"@,
        Field::CloudPreset => "cloud preset"@,
        Field::CloudBase => "cloud base key"@,
        Field::GroundWindSpeed => "ground wind speed key"@,
        Field::GroundWindHeading => "ground wind direction key"@,
        Field::Wind2000Speed => "2000m wind speed key"@,
        Field::Wind2000Heading => "2000m wind direction key"@,
        Field::Wind8000Speed => "8000m wind speed key"@,
        Field::Wind8000Heading => "8000m wind direction key"@,
        Field::Temperature => "temperature key"@,
        Field::Qnh => "QNH key"@,
    }
}

impl Field {
    /// The name of the field's key in messages.
    pub fn label(&self) -> (text: &'static str)
        ensures
            text@ == field_label(*self),
    {
        match self {
            Field::StartTime => "start_time key",
            Field::CloudPreset => "cloud preset",
            Field::CloudBase => "cloud base key",
            Field::GroundWindSpeed => "ground wind speed key",
            Field::GroundWindHeading => "ground wind direction key",
            Field::Wind2000Speed => "2000m wind speed key",
            Field::Wind2000Heading => "2000m wind direction key",
            Field::Wind8000Speed => "8000m wind speed key",
            Field::Wind8000Heading => "8000m wind direction key",
            Field::Temperature => "temperature key",
            Field::Qnh => "QNH key",
        }
    }
}

/// The message of a weight fault.
pub open spec fn weight_fault_message(fault: WeightFault) -> Seq<char> {
    match fault {
        WeightFault::NoItem => "No weather preset to choose from"@,
        WeightFault::Invalid => "A weather preset has a negative weight"@,
        WeightFault::AllZero => "All weather presets have weight zero"@,
        WeightFault::TooMany => "The weights of the weather presets are too many or too large"@,
    }
}

/// The message of a configuration error.
pub open spec fn config_message(error: ConfigError) -> Seq<char> {
    match error {
        ConfigError::InheritMissing { profile, target } => "Preset '"@ + profile@
            + "' tries to inherit values from '"@ + target@
            + "', but the referenced preset does not exist"@,
        ConfigError::InheritNotTable { profile, target } => "Preset '"@ + profile@
            + "' tries to inherit values from '"@ + target@ + "', but it is not a table"@,
        ConfigError::WeatherNotFound { name } => "Weather preset not found: "@ + name@,
        ConfigError::CloudPresetMissing { profile } => "Cloud preset not defined in weather key: "@
            + profile@,
        ConfigError::EmptyRange { field } => "Minimum above maximum for the "@ + field_label(field),
        ConfigError::FlipChance => "Wind flip chance outside 0 to 1"@,
        ConfigError::SpeedOverflow { field } => "Value out of range for the "@ + field_label(field),
        ConfigError::Weights { fault } => weight_fault_message(fault),
    }
}

/// The message of a patch error.
pub open spec fn patch_message(error: PatchError) -> Seq<char> {
    match error {
        PatchError::AnchorNotFound { field } => "Could not find "@ + field_label(field)
            + " in mission file"@,
        PatchError::BadAnchor => "Invalid search pattern"@,
        PatchError::ExtensionMissing => "File extension missing"@,
    }
}

/// The message of a format error.
pub open spec fn format_message(error: FormatError) -> Seq<char> {
    match error.fault {
        TimeFault::Components => "Invalid time format: "@ + error.time@,
        TimeFault::Hours => "cannot read hours from time: '"@ + error.time@ + "'"@,
        TimeFault::Minutes => "cannot read minutes from time: '"@ + error.time@ + "'"@,
        TimeFault::Seconds => "cannot read seconds from time: '"@ + error.time@ + "'"@,
    }
}

/// The message of any error.
pub open spec fn error_message(error: RepackError) -> Seq<char> {
    match error {
        RepackError::Config(e) => config_message(e),
        RepackError::Patch(e) => patch_message(e),
        RepackError::Format(e) => format_message(e),
        RepackError::MizNotFound =>
            ".miz file not provided and no recent file was found\nDrag and drop a .miz file into the exe to run it"@,
    }
}

/// Three pieces of text in a row.
fn join3(a: &str, b: &str, c: &str) -> (text: String)
    ensures
        text@ == a@ + b@ + c@,
{
    let mut text = String::from_str(a);
    text.append(b);
    text.append(c);
    text
}

impl WeightFault {
    /// The message for the user.
    pub fn message(&self) -> (text: String)
        ensures
            text@ == weight_fault_message(*self),
    {
        match self {
            WeightFault::NoItem => String::from_str("No weather preset to choose from"),
            WeightFault::Invalid => String::from_str("A weather preset has a negative weight"),
            WeightFault::AllZero => String::from_str("All weather presets have weight zero"),
            WeightFault::TooMany => String::from_str(
                "The weights of the weather presets are too many or too large",
            ),
        }
    }
}

impl ConfigError {
    /// The message for the user.
    pub fn message(&self) -> (text: String)
        ensures
            text@ == config_message(*self),
    {
        match self {
            ConfigError::InheritMissing { profile, target } => {
                let mut text = join3(
                    "Preset '",
                    profile.as_str(),
                    "' tries to inherit values from '",
                );
                text.append(target.as_str());
                text.append("', but the referenced preset does not exist");
                text
            },
            ConfigError::InheritNotTable { profile, target } => {
                let mut text = join3(
                    "Preset '",
                    profile.as_str(),
                    "' tries to inherit values from '",
                );
                text.append(target.as_str());
                text.append("', but it is not a table");
                text
            },
            ConfigError::WeatherNotFound { name } => String::from_str(
                "Weather preset not found: ",
            ).concat(name.as_str()),
            ConfigError::CloudPresetMissing { profile } => String::from_str(
                "Cloud preset not defined in weather key: ",
            ).concat(profile.as_str()),
            ConfigError::EmptyRange { field } => String::from_str(
                "Minimum above maximum for the ",
            ).concat(field.label()),
            ConfigError::FlipChance => String::from_str("Wind flip chance outside 0 to 1"),
            ConfigError::SpeedOverflow { field } => String::from_str(
                "Value out of range for the ",
            ).concat(field.label()),
            ConfigError::Weights { fault } => fault.message(),
        }
    }
}

impl PatchError {
    /// The message for the user.
    pub fn message(&self) -> (text: String)
        ensures
            text@ == patch_message(*self),
    {
        match self {
            PatchError::AnchorNotFound { field } => join3(
                "Could not find ",
                field.label(),
                " in mission file",
            ),
            PatchError::BadAnchor => String::from_str("Invalid search pattern"),
            PatchError::ExtensionMissing => String::from_str("File extension missing"),
        }
    }
}

impl FormatError {
    /// The message for the user.
    pub fn message(&self) -> (text: String)
        ensures
            text@ == format_message(*self),
    {
        match self.fault {
            TimeFault::Components => String::from_str("Invalid time format: ").concat(
                self.time.as_str(),
            ),
            TimeFault::Hours => join3("cannot read hours from time: '", self.time.as_str(), "'"),
            TimeFault::Minutes => join3(
                "cannot read minutes from time: '",
                self.time.as_str(),
                "'",
            ),
            TimeFault::Seconds => join3(
                "cannot read seconds from time: '",
                self.time.as_str(),
                "'",
            ),
        }
    }
}

impl RepackError {
    /// The message for the user.
    pub fn message(&self) -> (text: String)
        ensures
            text@ == error_message(*self),
    {
        match self {
            RepackError::Config(e) => e.message(),
            RepackError::Patch(e) => e.message(),
            RepackError::Format(e) => e.message(),
            RepackError::MizNotFound => String::from_str(
                ".miz file not provided and no recent file was found\nDrag and drop a .miz file into the exe to run it",
            ),
        }
    }
}

/// The failure to report when no mission file is named and none is recorded.
pub fn miz_not_found_error<T>() -> (result: Result<T, RepackError>)
    ensures
        result == Err::<T, RepackError>(RepackError::MizNotFound),
{
    Err(RepackError::MizNotFound)
}

} // verus!
