//! What the visual detectors report and what flows between them: signals
//! with a confidence in thousandths, the context of one frame, and the
//! result of a detection.

use vstd::prelude::*;
use crate::raster::RgbBuffer;
use crate::region::ImageRegion;

verus! {

#[verifier::external_type_specification]
#[verifier::external_body]
pub struct ExInstant(std::time::Instant);

/// `std::time::Instant::now`: the current instant of the monotonic clock.
/// Nothing is stated of it.
#[verifier::external_body]
pub(crate) fn instant_now() -> std::time::Instant {
    std::time::Instant::now()
}

/// `Instant::elapsed` in whole microseconds (`as_micros`, cut to 64 bits).
/// Nothing is stated of the time that passed.
#[verifier::external_body]
pub(crate) fn micros_since(start: &std::time::Instant) -> u64 {
    start.elapsed().as_micros() as u64
}

/// Kinds of visual evidence.
#[derive(Clone, Copy, Debug, PartialEq, Eq, Structural)]
pub enum DetectionSignalType {
    HPBar,
    BattleMenu,
    MainMenu,
    DialogBox,
    TextBlock,
    MenuCursor,
    TallGrass,
    Water,
    Indoor,
    Outdoor,
    PokemonCenter,
    Gym,
    Cave,
    City,
    Town,
    Route,
    Building,
    BattleTurn,
    MenuOption,
    PlayerPosition,
    BagMenu,
    WildPokemonEncounter,
    ShinyEffect,
}

/// The display name of a kind of signal.
pub open spec fn signal_name(t: DetectionSignalType) -> Seq<char> {
    match t {
        DetectionSignalType::HPBar => "HP Bar"@,
        DetectionSignalType::BattleMenu => "Battle Menu"@,
        DetectionSignalType::MainMenu => "Main Menu"@,
        DetectionSignalType::DialogBox => "Dialog Box"@,
        DetectionSignalType::TextBlock => "Text Block"@,
        DetectionSignalType::MenuCursor => "Menu Cursor"@,
        DetectionSignalType::TallGrass => "Tall Grass"@,
        DetectionSignalType::Water => "Water"@,
        DetectionSignalType::Indoor => "Indoor"@,
        DetectionSignalType::Outdoor => "Outdoor"@,
        DetectionSignalType::PokemonCenter => "Pokemon Center"@,
        DetectionSignalType::Gym => "Gym"@,
        DetectionSignalType::Cave => "Cave"@,
        DetectionSignalType::City => "City"@,
        DetectionSignalType::Town => "Town"@,
        DetectionSignalType::Route => "Route"@,
        DetectionSignalType::Building => "Building"@,
        DetectionSignalType::BattleTurn => "Battle Turn"@,
        DetectionSignalType::MenuOption => "Menu Option"@,
        DetectionSignalType::PlayerPosition => "Player Position"@,
        DetectionSignalType::BagMenu => "Bag Menu"@,
        DetectionSignalType::WildPokemonEncounter => "Wild Pokemon Encounter"@,
        DetectionSignalType::ShinyEffect => "Shiny Effect"@,
    }
}

pub fn signal_type_name(t: DetectionSignalType) -> (r: &'static str)
    ensures r@ == signal_name(t),
{
    proof {
        reveal_strlit("HP Bar");
        reveal_strlit("Battle Menu");
        reveal_strlit("Main Menu");
        reveal_strlit("Dialog Box");
        reveal_strlit("Text Block");
        reveal_strlit("Menu Cursor");
        reveal_strlit("Tall Grass");
        reveal_strlit("Water");
        reveal_strlit("Indoor");
        reveal_strlit("Outdoor");
        reveal_strlit("Pokemon Center");
        reveal_strlit("Gym");
        reveal_strlit("Cave");
        reveal_strlit("City");
        reveal_strlit("Town");
        reveal_strlit("Route");
        reveal_strlit("Building");
        reveal_strlit("Battle Turn");
        reveal_strlit("Menu Option");
        reveal_strlit("Player Position");
        reveal_strlit("Bag Menu");
        reveal_strlit("Wild Pokemon Encounter");
        reveal_strlit("Shiny Effect");
    }
    match t {
        DetectionSignalType::HPBar => "HP Bar",
        DetectionSignalType::BattleMenu => "Battle Menu",
        DetectionSignalType::MainMenu => "Main Menu",
        DetectionSignalType::DialogBox => "Dialog Box",
        DetectionSignalType::TextBlock => "Text Block",
        DetectionSignalType::MenuCursor => "Menu Cursor",
        DetectionSignalType::TallGrass => "Tall Grass",
        DetectionSignalType::Water => "Water",
        DetectionSignalType::Indoor => "Indoor",
        DetectionSignalType::Outdoor => "Outdoor",
        DetectionSignalType::PokemonCenter => "Pokemon Center",
        DetectionSignalType::Gym => "Gym",
        DetectionSignalType::Cave => "Cave",
        DetectionSignalType::City => "City",
        DetectionSignalType::Town => "Town",
        DetectionSignalType::Route => "Route",
        DetectionSignalType::Building => "Building",
        DetectionSignalType::BattleTurn => "Battle Turn",
        DetectionSignalType::MenuOption => "Menu Option",
        DetectionSignalType::PlayerPosition => "Player Position",
        DetectionSignalType::BagMenu => "Bag Menu",
        DetectionSignalType::WildPokemonEncounter => "Wild Pokemon Encounter",
        DetectionSignalType::ShinyEffect => "Shiny Effect",
    }
}

/// Extra information carried by a signal; a number is in thousandths.
#[derive(Debug)]
pub enum DetectionMetadata {
    Empty,
    Position(u32, u32),
    Count(usize),
    Color(u8, u8, u8),
    Text(String),
    Numeric(i64),
}

impl Clone for DetectionMetadata {
    fn clone(&self) -> (r: Self)
        ensures r == *self,
    {
        match self {
            DetectionMetadata::Empty => DetectionMetadata::Empty,
            DetectionMetadata::Position(x, y) => DetectionMetadata::Position(*x, *y),
            DetectionMetadata::Count(n) => DetectionMetadata::Count(*n),
            DetectionMetadata::Color(r, g, b) => DetectionMetadata::Color(*r, *g, *b),
            DetectionMetadata::Text(t) => DetectionMetadata::Text(t.clone()),
            DetectionMetadata::Numeric(v) => DetectionMetadata::Numeric(*v),
        }
    }
}

/// One piece of visual evidence with its confidence in thousandths.
#[derive(Debug)]
pub struct DetectionSignal {
    pub signal_type: DetectionSignalType,
    pub confidence: u64,
    pub location: Option<ImageRegion>,
    pub metadata: DetectionMetadata,
}

impl Clone for DetectionSignal {
    fn clone(&self) -> (r: Self)
        ensures r == *self,
    {
        DetectionSignal {
            signal_type: self.signal_type,
            confidence: self.confidence,
            location: self.location,
            metadata: self.metadata.clone(),
        }
    }
}

/// A signal without metadata.
pub open spec fn plain_signal(t: DetectionSignalType, confidence: u64, location: Option<ImageRegion>) -> DetectionSignal {
    DetectionSignal { signal_type: t, confidence, location, metadata: DetectionMetadata::Empty }
}

/// Whether some signal of `s` has type `t`.
pub open spec fn has_signal_type(s: Seq<DetectionSignal>, t: DetectionSignalType) -> bool {
    exists|i: int| 0 <= i < s.len() && #[trigger] s[i].signal_type == t
}

/// The confidence of the first signal of type `t` in `s`.
pub open spec fn first_confidence(s: Seq<DetectionSignal>, t: DetectionSignalType) -> Option<u64>
    decreases s.len(),
{
    if s.len() == 0 {
        None
    } else if s[0].signal_type == t {
        Some(s[0].confidence)
    } else {
        first_confidence(s.drop_first(), t)
    }
}

/// The largest confidence in `s`, 0 for none.
pub open spec fn max_confidence(s: Seq<DetectionSignal>) -> u64
    decreases s.len(),
{
    if s.len() == 0 {
        0
    } else {
        let m = max_confidence(s.drop_last());
        if s.last().confidence > m { s.last().confidence } else { m }
    }
}

/// The largest confidence of a list of signals, 0 for none.
pub fn overall_confidence(s: &Vec<DetectionSignal>) -> (r: u64)
    ensures r == max_confidence(s@),
{
    let mut m: u64 = 0;
    let mut i: usize = 0;
    while i < s.len()
        invariant
            i <= s@.len(),
            m == max_confidence(s@.take(i as int)),
        decreases s@.len() - i,
    {
        proof { assert(s@.take(i + 1).drop_last() =~= s@.take(i as int)); }
        if s[i].confidence > m {
            m = s[i].confidence;
        }
        i = i + 1;
    }
    proof { assert(s@.take(i as int) =~= s@); }
    m
}

/// A frame under analysis: its pixels, optionally a region of interest,
/// the signals found so far, and when its processing started.
pub struct DetectionContext<'a> {
    pub rgb: &'a RgbBuffer,
    pub dimensions: (u32, u32),
    pub region: Option<ImageRegion>,
    pub previous_signals: Vec<DetectionSignal>,
    pub processing_start: std::time::Instant,
}

impl<'a> DetectionContext<'a> {
    /// A context for a frame, with no signals yet, started now.
    pub fn new(image: &'a RgbBuffer) -> (r: DetectionContext<'a>)
        ensures
            r.rgb == image,
            r.dimensions == (image.spec_width() as u32, image.spec_height() as u32),
            r.region is None,
            r.previous_signals@.len() == 0,
    {
        let dimensions = (image.width(), image.height());
        DetectionContext {
            rgb: image,
            dimensions,
            region: None,
            previous_signals: Vec::new(),
            processing_start: instant_now(),
        }
    }

    /// The same context focused on a region.
    pub fn with_region(self, region: ImageRegion) -> (r: DetectionContext<'a>)
        ensures
            r.region == Some(region),
            r.rgb == self.rgb,
            r.dimensions == self.dimensions,
            r.previous_signals == self.previous_signals,
    {
        DetectionContext { region: Some(region), ..self }
    }

    /// Records a signal.
    pub fn add_signal(&mut self, signal: DetectionSignal)
        ensures
            final(self).previous_signals@ == old(self).previous_signals@.push(signal),
            final(self).rgb == old(self).rgb,
            final(self).dimensions == old(self).dimensions,
            final(self).region == old(self).region,
    {
        self.previous_signals.push(signal);
    }

    /// Whether a signal of this type has been recorded.
    pub fn has_signal(&self, signal_type: DetectionSignalType) -> (r: bool)
        ensures r == has_signal_type(self.previous_signals@, signal_type),
    {
        let mut i: usize = 0;
        while i < self.previous_signals.len()
            invariant
                i <= self.previous_signals@.len(),
                forall|j: int| 0 <= j < i ==> self.previous_signals@[j].signal_type != signal_type,
            decreases self.previous_signals@.len() - i,
        {
            if self.previous_signals[i].signal_type == signal_type {
                return true;
            }
            i = i + 1;
        }
        false
    }

    /// The confidence of the first recorded signal of this type.
    pub fn get_signal_confidence(&self, signal_type: DetectionSignalType) -> (r: Option<u64>)
        ensures r == first_confidence(self.previous_signals@, signal_type),
    {
        proof { assert(self.previous_signals@.skip(0) =~= self.previous_signals@); }
        let mut i: usize = 0;
        while i < self.previous_signals.len()
            invariant
                i <= self.previous_signals@.len(),
                first_confidence(self.previous_signals@, signal_type) == first_confidence(self.previous_signals@.skip(i as int), signal_type),
            decreases self.previous_signals@.len() - i,
        {
            proof { assert(self.previous_signals@.skip(i as int).drop_first() =~= self.previous_signals@.skip(i + 1)); }
            if self.previous_signals[i].signal_type == signal_type {
                return Some(self.previous_signals[i].confidence);
            }
            i = i + 1;
        }
        None
    }
}

/// The outcome of a detection with its confidence in thousandths, the
/// reasons behind it and how long it took.
pub struct DetectionResult<T> {
    pub result: T,
    pub confidence: u64,
    pub reasoning: String,
    pub processing_time_us: u64,
    pub signals_detected: Vec<DetectionSignal>,
}

impl<T> DetectionResult<T> {
    /// A result without timing or signals.
    pub fn new(result: T, confidence: u64, reasoning: String) -> (r: DetectionResult<T>)
        ensures
            r.result == result,
            r.confidence == confidence,
            r.reasoning == reasoning,
            r.processing_time_us == 0,
            r.signals_detected@.len() == 0,
    {
        DetectionResult { result, confidence, reasoning, processing_time_us: 0, signals_detected: Vec::new() }
    }

    /// The same result listing these signals.
    pub fn with_signals(self, signals: Vec<DetectionSignal>) -> (r: DetectionResult<T>)
        ensures
            r.signals_detected == signals,
            r.result == self.result,
            r.confidence == self.confidence,
            r.reasoning == self.reasoning,
            r.processing_time_us == self.processing_time_us,
    {
        DetectionResult { signals_detected: signals, ..self }
    }

    /// The same result with `elapsed_us` microseconds as its processing
    /// time.
    pub fn with_processing_time(self, elapsed_us: u64) -> (r: DetectionResult<T>)
        ensures
            r.processing_time_us == elapsed_us,
            r.signals_detected == self.signals_detected,
            r.result == self.result,
            r.confidence == self.confidence,
            r.reasoning == self.reasoning,
    {
        DetectionResult { processing_time_us: elapsed_us, ..self }
    }

    /// The same result timed from `start_time` to now: the clock's reading
    /// goes to `with_processing_time`.
    pub fn with_timing(self, start_time: &std::time::Instant) -> (r: DetectionResult<T>)
        ensures
            r.signals_detected == self.signals_detected,
            r.result == self.result,
            r.confidence == self.confidence,
            r.reasoning == self.reasoning,
    {
        let t = micros_since(start_time);
        self.with_processing_time(t)
    }
}

} // verus!
