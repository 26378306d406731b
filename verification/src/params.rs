//! Parameters shared between the audio engine, the control socket and the
//! control GUI: the amplifier state, the tube and model catalogues, the
//! level controls and the commands the socket hands to the engine thread.
use vstd::prelude::*;

verus! {

/// The tubes the real-time engine can model, in the order the GUI lists them.
#[derive(Debug, Clone, Copy, PartialEq, Eq, Structural)]
pub enum TubeModel {
    Tube12AX7,
    Tube12AU7,
    Tube12AT7,
    Tube6DJ8,
    Tube6L6GC,
    Tube6550,
    TubeEL34,
    TubeKT88,
}

/// The name under which each tube is selected.
pub open spec fn tube_name_of(t: TubeModel) -> Seq<char> {
    match t {
        TubeModel::Tube12AX7 => "12AX7"@,
        TubeModel::Tube12AU7 => "12AU7"@,
        TubeModel::Tube12AT7 => "12AT7"@,
        TubeModel::Tube6DJ8 => "6DJ8"@,
        TubeModel::Tube6L6GC => "6L6GC"@,
        TubeModel::Tube6550 => "6550"@,
        TubeModel::TubeEL34 => "EL34"@,
        TubeModel::TubeKT88 => "KT88"@,
    }
}

/// The tube selected by `name`, if any.
pub open spec fn tube_named(name: Seq<char>) -> Option<TubeModel> {
    if name == "12AX7"@ {
        Some(TubeModel::Tube12AX7)
    } else if name == "12AU7"@ {
        Some(TubeModel::Tube12AU7)
    } else if name == "12AT7"@ {
        Some(TubeModel::Tube12AT7)
    } else if name == "6DJ8"@ {
        Some(TubeModel::Tube6DJ8)
    } else if name == "6L6GC"@ {
        Some(TubeModel::Tube6L6GC)
    } else if name == "6550"@ {
        Some(TubeModel::Tube6550)
    } else if name == "EL34"@ {
        Some(TubeModel::TubeEL34)
    } else if name == "KT88"@ {
        Some(TubeModel::TubeKT88)
    } else {
        None
    }
}

/// The position of each tube in the catalogue.
pub open spec fn tube_index_of(t: TubeModel) -> nat {
    match t {
        TubeModel::Tube12AX7 => 0,
        TubeModel::Tube12AU7 => 1,
        TubeModel::Tube12AT7 => 2,
        TubeModel::Tube6DJ8 => 3,
        TubeModel::Tube6L6GC => 4,
        TubeModel::Tube6550 => 5,
        TubeModel::TubeEL34 => 6,
        TubeModel::TubeKT88 => 7,
    }
}

/// The message with which an unknown tube name is refused.
pub open spec fn unknown_tube_message(name: Seq<char>) -> Seq<char> {
    "unknown tube: "@ + name
}

/// Number of tubes in the catalogue.
pub const TUBE_COUNT: usize = 8;

impl TubeModel {
    /// The name under which this tube is selected.
    pub fn name(&self) -> (r: &'static str)
        ensures
            r@ == tube_name_of(*self),
    {
        match self {
            TubeModel::Tube12AX7 => "12AX7",
            TubeModel::Tube12AU7 => "12AU7",
            TubeModel::Tube12AT7 => "12AT7",
            TubeModel::Tube6DJ8 => "6DJ8",
            TubeModel::Tube6L6GC => "6L6GC",
            TubeModel::Tube6550 => "6550",
            TubeModel::TubeEL34 => "EL34",
            TubeModel::TubeKT88 => "KT88",
        }
    }

    /// The tube at position `i` of the catalogue.
    pub fn at(i: usize) -> (t: TubeModel)
        requires
            i < TUBE_COUNT,
        ensures
            tube_index_of(t) == i,
    {
        if i == 0 {
            TubeModel::Tube12AX7
        } else if i == 1 {
            TubeModel::Tube12AU7
        } else if i == 2 {
            TubeModel::Tube12AT7
        } else if i == 3 {
            TubeModel::Tube6DJ8
        } else if i == 4 {
            TubeModel::Tube6L6GC
        } else if i == 5 {
            TubeModel::Tube6550
        } else if i == 6 {
            TubeModel::TubeEL34
        } else {
            TubeModel::TubeKT88
        }
    }

    /// The position of this tube in the catalogue.
    pub fn index(&self) -> (i: usize)
        ensures
            i == tube_index_of(*self),
            i < TUBE_COUNT,
    {
        match self {
            TubeModel::Tube12AX7 => 0,
            TubeModel::Tube12AU7 => 1,
            TubeModel::Tube12AT7 => 2,
            TubeModel::Tube6DJ8 => 3,
            TubeModel::Tube6L6GC => 4,
            TubeModel::Tube6550 => 5,
            TubeModel::TubeEL34 => 6,
            TubeModel::TubeKT88 => 7,
        }
    }
}

/// Looks a tube up by name. An unknown name is refused with
/// `"unknown tube: <name>"`.
pub fn tube_by_name(name: &str) -> (r: Result<TubeModel, String>)
    ensures
        tube_named(name@) is Some ==> r == Ok::<TubeModel, String>(tube_named(name@)->0),
        tube_named(name@) is None ==> r is Err && r->Err_0@ == unknown_tube_message(name@),
{
    if crate::text::str_eq(name, "12AX7") {
        Ok(TubeModel::Tube12AX7)
    } else if crate::text::str_eq(name, "12AU7") {
        Ok(TubeModel::Tube12AU7)
    } else if crate::text::str_eq(name, "12AT7") {
        Ok(TubeModel::Tube12AT7)
    } else if crate::text::str_eq(name, "6DJ8") {
        Ok(TubeModel::Tube6DJ8)
    } else if crate::text::str_eq(name, "6L6GC") {
        Ok(TubeModel::Tube6L6GC)
    } else if crate::text::str_eq(name, "6550") {
        Ok(TubeModel::Tube6550)
    } else if crate::text::str_eq(name, "EL34") {
        Ok(TubeModel::TubeEL34)
    } else if crate::text::str_eq(name, "KT88") {
        Ok(TubeModel::TubeKT88)
    } else {
        let mut msg = String::from_str("unknown tube: ");
        msg.append(name);
        Err(msg)
    }
}

/// The amplifier topologies the engine and the offline processor build.
#[derive(Debug, Clone, Copy, PartialEq, Eq, Structural)]
pub enum AmpModel {
    Single,
    TwoStage,
    Chain,
}

/// The name under which each amplifier model is selected.
pub open spec fn model_name_of(m: AmpModel) -> Seq<char> {
    match m {
        AmpModel::Single => "single"@,
        AmpModel::TwoStage => "two-stage"@,
        AmpModel::Chain => "chain"@,
    }
}

/// The amplifier model selected by `name`, if any.
pub open spec fn model_named(name: Seq<char>) -> Option<AmpModel> {
    if name == "single"@ {
        Some(AmpModel::Single)
    } else if name == "two-stage"@ {
        Some(AmpModel::TwoStage)
    } else if name == "chain"@ {
        Some(AmpModel::Chain)
    } else {
        None
    }
}

/// The position of each model in the catalogue.
pub open spec fn model_index_of(m: AmpModel) -> nat {
    match m {
        AmpModel::Single => 0,
        AmpModel::TwoStage => 1,
        AmpModel::Chain => 2,
    }
}

/// Number of amplifier models in the catalogue.
pub const MODEL_COUNT: usize = 3;

impl AmpModel {
    /// The name under which this model is selected.
    pub fn name(&self) -> (r: &'static str)
        ensures
            r@ == model_name_of(*self),
    {
        match self {
            AmpModel::Single => "single",
            AmpModel::TwoStage => "two-stage",
            AmpModel::Chain => "chain",
        }
    }

    /// The model at position `i` of the catalogue.
    pub fn at(i: usize) -> (m: AmpModel)
        requires
            i < MODEL_COUNT,
        ensures
            model_index_of(m) == i,
    {
        if i == 0 {
            AmpModel::Single
        } else if i == 1 {
            AmpModel::TwoStage
        } else {
            AmpModel::Chain
        }
    }

    /// The position of this model in the catalogue.
    pub fn index(&self) -> (i: usize)
        ensures
            i == model_index_of(*self),
            i < MODEL_COUNT,
    {
        match self {
            AmpModel::Single => 0,
            AmpModel::TwoStage => 1,
            AmpModel::Chain => 2,
        }
    }

    /// Looks a model up by name.
    pub fn from_name(name: &str) -> (r: Option<AmpModel>)
        ensures
            r == model_named(name@),
    {
        if crate::text::str_eq(name, "single") {
            Some(AmpModel::Single)
        } else if crate::text::str_eq(name, "two-stage") {
            Some(AmpModel::TwoStage)
        } else if crate::text::str_eq(name, "chain") {
            Some(AmpModel::Chain)
        } else {
            None
        }
    }
}

/// The position that a selector shows for the tube named `name`: the
/// tube's own position, or the first entry when the name is unknown.
pub fn tube_selection(name: &str) -> (i: usize)
    ensures
        i < TUBE_COUNT,
        tube_named(name@) is Some ==> i == tube_index_of(tube_named(name@)->0),
        tube_named(name@) is None ==> i == 0,
{
    match tube_by_name(name) {
        Ok(t) => t.index(),
        Err(_) => 0,
    }
}

/// The position that a selector shows for the model named `name`: the
/// model's own position, or the first entry when the name is unknown.
pub fn model_selection(name: &str) -> (i: usize)
    ensures
        i < MODEL_COUNT,
        model_named(name@) is Some ==> i == model_index_of(model_named(name@)->0),
        model_named(name@) is None ==> i == 0,
{
    match AmpModel::from_name(name) {
        Some(m) => m.index(),
        None => 0,
    }
}

/// The three level controls of the amplifier.
#[derive(Debug, Clone, Copy, PartialEq, Eq, Structural)]
pub enum Level {
    /// Output volume, in dB.
    Volume,
    /// Input gain, in dB.
    Gain,
    /// B+ supply voltage, in volts.
    BPlus,
}

/// The command word that sets each level.
pub open spec fn level_keyword(l: Level) -> Seq<char> {
    match l {
        Level::Volume => "volume"@,
        Level::Gain => "gain"@,
        Level::BPlus => "bplus"@,
    }
}

/// The inclusive range accepted for each level.
pub open spec fn level_range(l: Level) -> (int, int) {
    match l {
        Level::Volume => (-60, 12),
        Level::Gain => (-96, 10),
        Level::BPlus => (50, 600),
    }
}

/// The refusal of a level value that is not a number.
pub open spec fn level_parse_error(l: Level) -> Seq<char> {
    match l {
        Level::Volume => "invalid volume"@,
        Level::Gain => "invalid gain"@,
        Level::BPlus => "invalid voltage"@,
    }
}

/// The refusal of a level value outside the level's range.
pub open spec fn level_range_error(l: Level) -> Seq<char> {
    match l {
        Level::Volume => "volume range: -60..+12 dB"@,
        Level::Gain => "gain range: -96..+10 dB"@,
        Level::BPlus => "bplus range: 50..600 V"@,
    }
}

impl Level {
    /// The command word that sets this level.
    pub fn keyword(&self) -> (r: &'static str)
        ensures
            r@ == level_keyword(*self),
    {
        match self {
            Level::Volume => "volume",
            Level::Gain => "gain",
            Level::BPlus => "bplus",
        }
    }

    /// The inclusive bounds of the accepted range (dB, or volts for B+).
    pub fn bounds(&self) -> (r: (i32, i32))
        ensures
            r.0 as int == level_range(*self).0,
            r.1 as int == level_range(*self).1,
    {
        match self {
            Level::Volume => (-60, 12),
            Level::Gain => (-96, 10),
            Level::BPlus => (50, 600),
        }
    }

    /// The answer to a value that is not a number.
    pub fn parse_error(&self) -> (r: &'static str)
        ensures
            r@ == level_parse_error(*self),
    {
        match self {
            Level::Volume => "invalid volume",
            Level::Gain => "invalid gain",
            Level::BPlus => "invalid voltage",
        }
    }

    /// The answer to a number outside the accepted range.
    pub fn range_error(&self) -> (r: &'static str)
        ensures
            r@ == level_range_error(*self),
    {
        match self {
            Level::Volume => "volume range: -60..+12 dB",
            Level::Gain => "gain range: -96..+10 dB",
            Level::BPlus => "bplus range: 50..600 V",
        }
    }
}

/// Bit pattern of the single-precision gain at start-up, 10^(-38/20).
pub const DEFAULT_GAIN_BITS: u32 = 0x3c4e4329;

/// Bit pattern of the single-precision volume at start-up, 10^(-12/20).
pub const DEFAULT_VOLUME_BITS: u32 = 0x3e809bcc;

/// Bit pattern of the single-precision B+ voltage at start-up, 300 V.
pub const DEFAULT_BPLUS_BITS: u32 = 0x43960000;

/// The state that the control socket changes and the audio engine reads.
///
/// The linear gain, the linear volume and the B+ voltage are kept as the
/// bit patterns of single-precision numbers; the caller converts.
pub struct SharedParams {
    /// Whether the tube model is bypassed.
    pub bypass: bool,
    /// Bit pattern of the linear input gain.
    pub gain: u32,
    /// Bit pattern of the linear output volume.
    pub volume: u32,
    /// Bit pattern of the B+ voltage.
    pub bplus: u32,
    /// The selected tube's name.
    pub tube: String,
    /// The selected amplifier model's name.
    pub model: String,
}

impl SharedParams {
    /// The start-up state: not bypassed, gain -38 dB, volume -12 dB,
    /// B+ 300 V, tube 12AX7, model `single`.
    pub fn new() -> (p: SharedParams)
        ensures
            !p.bypass,
            p.gain == DEFAULT_GAIN_BITS,
            p.volume == DEFAULT_VOLUME_BITS,
            p.bplus == DEFAULT_BPLUS_BITS,
            p.tube@ == tube_name_of(TubeModel::Tube12AX7),
            p.model@ == model_name_of(AmpModel::Single),
    {
        SharedParams {
            bypass: false,
            gain: DEFAULT_GAIN_BITS,
            volume: DEFAULT_VOLUME_BITS,
            bplus: DEFAULT_BPLUS_BITS,
            tube: String::from_str("12AX7"),
            model: String::from_str("single"),
        }
    }

    /// Whether the tube model is bypassed.
    pub fn bypass_enabled(&self) -> (r: bool)
        ensures
            r == self.bypass,
    {
        self.bypass
    }
}

#[verifier::external_type_specification]
#[verifier::external_body]
#[verifier::reject_recursive_types(T)]
pub struct ExSender<T>(std::sync::mpsc::Sender<T>);

/// Requests that the control socket and the device monitor hand to the
/// engine thread; the engine answers a model or tube change on `resp`.
pub enum MainCommand {
    /// Switch to the amplifier model of this name.
    SetModel { model: String, resp: std::sync::mpsc::Sender<String> },
    /// Switch to the tube of this name.
    SetTube { tube: String, resp: std::sync::mpsc::Sender<String> },
    /// Play through the output device of this name.
    SwitchOutput { device: String },
    /// Stop the engine.
    Stop,
}

} // verus!
