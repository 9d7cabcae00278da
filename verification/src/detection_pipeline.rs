//! The detection pipeline: visual detectors run in order of priority over a
//! frame, each seeing the signals found before it, until a detector is
//! confident enough or the time budget is spent.

use vstd::prelude::*;
use crate::analyzers::{HPBarDetector, TextDetector, MenuDetector, LocationDetector, EnvironmentDetector,
    hp_signals, hp_score, scored, text_signals, menu_signals, menu_score, bottom_quarter_of, location_signals, environment_signals};
use crate::detection::{DetectionContext, DetectionResult, DetectionSignal, DetectionSignalType, has_signal_type,
    max_confidence, overall_confidence, instant_now, micros_since};
use crate::raster::RgbBuffer;
use crate::text::{with_count, decimal_string, join, decimal, region_text, fixed2_text};
use vstd::string::StringExecFns;
use crate::ui_detectors::{dark_count, bag_count, top_samples, flash_count, frame_samples, sparkle_count,
    MenuCursorDetector, BagMenuDetector, PokemonDetector, ShinyDetector,
    cursor_signals, cursor_confidence, bag_signals, bag_confidence, encounter_signals, encounter_confidence,
    shiny_signals, shiny_confidence};
use crate::region::ImageRegion;

verus! {

/// One of the visual detectors.
#[derive(Clone, Copy, Debug, PartialEq, Eq, Structural)]
pub enum VisualDetector {
    HPBar(HPBarDetector),
    Text(TextDetector),
    Menu(MenuDetector),
    Location(LocationDetector),
    Environment(EnvironmentDetector),
    MenuCursor(MenuCursorDetector),
    BagMenu(BagMenuDetector),
    Pokemon(PokemonDetector),
    Shiny(ShinyDetector),
}

/// Higher priorities run first.
pub open spec fn priority_of(d: VisualDetector) -> u8 {
    match d {
        VisualDetector::HPBar(_) => 90,
        VisualDetector::Text(_) => 70,
        VisualDetector::Menu(_) => 80,
        VisualDetector::Location(_) => 50,
        VisualDetector::Environment(_) => 40,
        VisualDetector::MenuCursor(_) => 90,
        VisualDetector::BagMenu(_) => 85,
        VisualDetector::Pokemon(_) => 95,
        VisualDetector::Shiny(_) => 100,
    }
}

/// Whether a detector runs, given the signals found so far.
pub open spec fn can_run(d: VisualDetector, found: Seq<DetectionSignal>) -> bool {
    match d {
        VisualDetector::Location(_) => !has_signal_type(found, DetectionSignalType::HPBar)
            && !has_signal_type(found, DetectionSignalType::BattleMenu),
        VisualDetector::MenuCursor(_) => has_signal_type(found, DetectionSignalType::BattleMenu)
            || has_signal_type(found, DetectionSignalType::MainMenu),
        VisualDetector::BagMenu(_) => !has_signal_type(found, DetectionSignalType::HPBar),
        VisualDetector::Pokemon(_) => !has_signal_type(found, DetectionSignalType::BattleMenu)
            && !has_signal_type(found, DetectionSignalType::HPBar),
        VisualDetector::Shiny(_) => has_signal_type(found, DetectionSignalType::HPBar),
        _ => true,
    }
}

/// What a detector reports for a frame: its signals and its confidence.
pub open spec fn detector_output(d: VisualDetector, img: RgbBuffer) -> (Seq<DetectionSignal>, u64) {
    match d {
        VisualDetector::HPBar(h) => (
            hp_signals(h, img),
            scored(hp_score(h, img, ImageRegion { x: 0, y: 0, width: img.spec_width() as u32, height: (img.spec_height() / 4) as u32 }), 300).1,
        ),
        VisualDetector::Text(t) => (text_signals(t, img), max_confidence(text_signals(t, img))),
        VisualDetector::Menu(m) => (menu_signals(m, img), scored(menu_score(m, img, bottom_quarter_of(img)), 1000).1),
        VisualDetector::Location(_) => (location_signals(img), max_confidence(location_signals(img))),
        VisualDetector::Environment(e) => (environment_signals(e, img), max_confidence(environment_signals(e, img))),
        VisualDetector::MenuCursor(c) => (cursor_signals(c, img), cursor_confidence(c, img)),
        VisualDetector::BagMenu(b) => (bag_signals(b, img), bag_confidence(b, img)),
        VisualDetector::Pokemon(p) => (encounter_signals(p, img), encounter_confidence(p, img)),
        VisualDetector::Shiny(s) => (shiny_signals(s, img), shiny_confidence(s, img)),
    }
}

/// How a detector explains its answer for a frame.
pub open spec fn detector_reasoning(d: VisualDetector, img: RgbBuffer) -> Seq<char> {
    match d {
        VisualDetector::HPBar(_) => "HP Bar detection in region "@
            + region_text(ImageRegion { x: 0, y: 0, width: img.spec_width() as u32, height: (img.spec_height() / 4) as u32 }),
        VisualDetector::Text(t) => "Text detection found "@ + decimal(text_signals(t, img).len()) + " regions"@,
        VisualDetector::Menu(_) => "Battle Menu detection in region "@ + region_text(bottom_quarter_of(img)),
        VisualDetector::Location(_) => "Location detection found "@ + decimal(location_signals(img).len()) + " signals"@,
        VisualDetector::Environment(e) => "Environment detection found "@ + decimal(environment_signals(e, img).len()) + " signals"@,
        VisualDetector::MenuCursor(c) => "Menu cursor detection found "@ + decimal(dark_count(img, c.cursor_color_threshold)) + " pixels."@,
        VisualDetector::BagMenu(b) => "Bag Menu detection with "@
            + fixed2_text(100 * bag_count(img, b.color_threshold), top_samples(img) as nat) + "% area coverage"@,
        VisualDetector::Pokemon(_) => "Pokemon encounter detection. Flash confidence: "@
            + fixed2_text(flash_count(img), frame_samples(img) as nat),
        VisualDetector::Shiny(s) => "Shiny detection found "@ + decimal(sparkle_count(img, s.sparkle_threshold_pm)) + " sparkles"@,
    }
}

/// The detector's name.
pub open spec fn detector_name(d: VisualDetector) -> Seq<char> {
    match d {
        VisualDetector::HPBar(_) => "HPBarDetector"@,
        VisualDetector::Text(_) => "TextDetector"@,
        VisualDetector::Menu(_) => "MenuDetector"@,
        VisualDetector::Location(_) => "LocationDetector"@,
        VisualDetector::Environment(_) => "EnvironmentDetector"@,
        VisualDetector::MenuCursor(_) => "MenuCursorDetector"@,
        VisualDetector::BagMenu(_) => "BagMenuDetector"@,
        VisualDetector::Pokemon(_) => "PokemonDetector"@,
        VisualDetector::Shiny(_) => "ShinyDetector"@,
    }
}

impl VisualDetector {
    /// The detector's signals and confidence for a frame.
    pub fn detect(&self, context: &DetectionContext) -> (r: DetectionResult<Vec<DetectionSignal>>)
        ensures
            (r.result@, r.confidence) == detector_output(*self, *context.rgb),
            r.reasoning@ == detector_reasoning(*self, *context.rgb),
    {
        match self {
            VisualDetector::HPBar(d) => d.detect(context),
            VisualDetector::Text(d) => d.detect(context),
            VisualDetector::Menu(d) => d.detect(context),
            VisualDetector::Location(d) => d.detect(context),
            VisualDetector::Environment(d) => d.detect(context),
            VisualDetector::MenuCursor(d) => d.detect(context),
            VisualDetector::BagMenu(d) => d.detect(context),
            VisualDetector::Pokemon(d) => d.detect(context),
            VisualDetector::Shiny(d) => d.detect(context),
        }
    }

    pub fn priority(&self) -> (r: u8)
        ensures r == priority_of(*self),
    {
        match self {
            VisualDetector::HPBar(d) => d.priority(),
            VisualDetector::Text(d) => d.priority(),
            VisualDetector::Menu(d) => d.priority(),
            VisualDetector::Location(d) => d.priority(),
            VisualDetector::Environment(d) => d.priority(),
            VisualDetector::MenuCursor(d) => d.priority(),
            VisualDetector::BagMenu(d) => d.priority(),
            VisualDetector::Pokemon(d) => d.priority(),
            VisualDetector::Shiny(d) => d.priority(),
        }
    }

    pub fn name(&self) -> (r: &'static str)
        ensures r@ == detector_name(*self),
    {
        proof {
            reveal_strlit("HPBarDetector");
            reveal_strlit("TextDetector");
            reveal_strlit("MenuDetector");
            reveal_strlit("LocationDetector");
            reveal_strlit("EnvironmentDetector");
            reveal_strlit("MenuCursorDetector");
            reveal_strlit("BagMenuDetector");
            reveal_strlit("PokemonDetector");
            reveal_strlit("ShinyDetector");
        }
        match self {
            VisualDetector::HPBar(_) => "HPBarDetector",
            VisualDetector::Text(_) => "TextDetector",
            VisualDetector::Menu(_) => "MenuDetector",
            VisualDetector::Location(_) => "LocationDetector",
            VisualDetector::Environment(_) => "EnvironmentDetector",
            VisualDetector::MenuCursor(_) => "MenuCursorDetector",
            VisualDetector::BagMenu(_) => "BagMenuDetector",
            VisualDetector::Pokemon(_) => "PokemonDetector",
            VisualDetector::Shiny(_) => "ShinyDetector",
        }
    }

    pub fn can_process(&self, context: &DetectionContext) -> (r: bool)
        ensures r == can_run(*self, context.previous_signals@),
    {
        match self {
            VisualDetector::HPBar(d) => d.can_process(context),
            VisualDetector::Text(d) => d.can_process(context),
            VisualDetector::Menu(d) => d.can_process(context),
            VisualDetector::Location(d) => d.can_process(context),
            VisualDetector::Environment(d) => d.can_process(context),
            VisualDetector::MenuCursor(d) => d.can_process(context),
            VisualDetector::BagMenu(d) => d.can_process(context),
            VisualDetector::Pokemon(d) => d.can_process(context),
            VisualDetector::Shiny(d) => d.can_process(context),
        }
    }
}

/// Priorities do not increase along the list.
pub open spec fn by_priority(ds: Seq<VisualDetector>) -> bool {
    forall|i: int, j: int| 0 <= i < j < ds.len() ==> priority_of(ds[i]) >= priority_of(ds[j])
}

/// The list after adding `d` in priority order, behind every detector of
/// the same or a higher priority.
pub open spec fn with_detector(ds: Seq<VisualDetector>, d: VisualDetector) -> Seq<VisualDetector> {
    let k = ds.filter(|e: VisualDetector| priority_of(e) >= priority_of(d)).len();
    ds.insert(k as int, d)
}

/// The signals found by running `ds` in order over a frame whose signals
/// so far are `found`. A detector that cannot run is passed over. The run
/// stops before the first runnable detector at position `cut` or later
/// (the time budget is spent there), and, with early termination, after a
/// detector whose confidence exceeds 900.
pub open spec fn run_detectors(ds: Seq<VisualDetector>, img: RgbBuffer, found: Seq<DetectionSignal>, early: bool, cut: int) -> Seq<DetectionSignal>
    decreases ds.len(),
{
    if ds.len() == 0 {
        Seq::empty()
    } else if !can_run(ds[0], found) {
        run_detectors(ds.drop_first(), img, found, early, cut - 1)
    } else if cut <= 0 {
        Seq::empty()
    } else {
        let out = detector_output(ds[0], img);
        if early && out.1 > 900 {
            out.0
        } else {
            out.0 + run_detectors(ds.drop_first(), img, found + out.0, early, cut - 1)
        }
    }
}

/// Where a run stops when `elapsed[k]` is the time spent by the moment
/// position `k` is reached: at the first runnable detector whose reading
/// exceeds `budget`, or one past a detector that ends the run early, or
/// after the last detector.
pub open spec fn timed_cut(ds: Seq<VisualDetector>, img: RgbBuffer, found: Seq<DetectionSignal>, early: bool, elapsed: Seq<u64>, budget: u64) -> int
    decreases ds.len(),
{
    if ds.len() == 0 {
        0
    } else if !can_run(ds[0], found) {
        1 + timed_cut(ds.drop_first(), img, found, early, elapsed.drop_first(), budget)
    } else if elapsed[0] > budget {
        0
    } else {
        let out = detector_output(ds[0], img);
        if early && out.1 > 900 {
            1
        } else {
            1 + timed_cut(ds.drop_first(), img, found + out.0, early, elapsed.drop_first(), budget)
        }
    }
}

/// Facts about a pipeline's configuration.
#[derive(Debug)]
pub struct PipelineStats {
    pub total_detectors: usize,
    pub detector_names: Vec<String>,
    pub early_termination_enabled: bool,
    pub max_processing_time_us: u64,
}

/// Visual detectors in order of priority, with early termination and a
/// time budget.
pub struct DetectionPipeline {
    detectors: Vec<VisualDetector>,
    enable_early_termination: bool,
    max_processing_time_us: u64,
}

impl DetectionPipeline {
    #[verifier::type_invariant]
    closed spec fn inv(self) -> bool {
        by_priority(self.detectors@)
    }

    /// The detectors, in the order they run.
    pub closed spec fn detectors(&self) -> Seq<VisualDetector> {
        self.detectors@
    }

    pub closed spec fn early_termination(&self) -> bool {
        self.enable_early_termination
    }

    pub closed spec fn time_budget(&self) -> u64 {
        self.max_processing_time_us
    }

    /// No detectors; early termination on; 10 ms budget.
    pub fn new() -> (r: DetectionPipeline)
        ensures
            r.detectors().len() == 0,
            r.early_termination(),
            r.time_budget() == 10_000,
    {
        DetectionPipeline { detectors: Vec::new(), enable_early_termination: true, max_processing_time_us: 10_000 }
    }

    /// The same pipeline with one more detector, placed by priority behind
    /// those of the same or a higher priority.
    pub fn add_detector(self, detector: VisualDetector) -> (r: DetectionPipeline)
        ensures
            r.detectors() == with_detector(self.detectors(), detector),
            by_priority(r.detectors()),
            r.early_termination() == self.early_termination(),
            r.time_budget() == self.time_budget(),
    {
        proof { use_type_invariant(&self); }
        let p = detector.priority();
        let ghost pr = |e: VisualDetector| priority_of(e) >= priority_of(detector);
        let mut k: usize = 0;
        while k < self.detectors.len() && self.detectors[k].priority() >= p
            invariant
                k <= self.detectors@.len(),
                p == priority_of(detector),
                forall|j: int| 0 <= j < k ==> priority_of(#[trigger] self.detectors@[j]) >= p,
            decreases self.detectors@.len() - k,
        {
            k = k + 1;
        }
        let ghost ds = self.detectors@;
        proof {
            assert(forall|j: int| k <= j < ds.len() ==> priority_of(#[trigger] ds[j]) < p) by {
                assert forall|j: int| k <= j < ds.len() implies priority_of(#[trigger] ds[j]) < p by {
                    if k < ds.len() {
                        assert(priority_of(ds[k as int]) < p);
                        if j > k {
                            assert(priority_of(ds[k as int]) >= priority_of(ds[j]));
                        }
                    }
                }
            }
            lemma_filter_prefix(ds, k as int, pr);
        }
        let DetectionPipeline { detectors, enable_early_termination, max_processing_time_us } = self;
        let mut detectors = detectors;
        detectors.insert(k, detector);
        proof {
            let nd = detectors@;
            assert(nd == ds.insert(k as int, detector));
            assert forall|i: int, j: int| 0 <= i < j < nd.len() implies priority_of(nd[i]) >= priority_of(nd[j]) by {
                if j < k {
                    assert(nd[i] == ds[i] && nd[j] == ds[j]);
                } else if j == k {
                    assert(nd[i] == ds[i]);
                } else if i < k {
                    assert(nd[i] == ds[i] && nd[j] == ds[j - 1]);
                } else if i == k {
                    assert(nd[j] == ds[j - 1]);
                } else {
                    assert(nd[i] == ds[i - 1] && nd[j] == ds[j - 1]);
                }
            }
        }
        let r = DetectionPipeline { detectors, enable_early_termination, max_processing_time_us };
        proof { use_type_invariant(&r); }
        r
    }

    /// The same pipeline with early termination switched on or off.
    pub fn with_early_termination(self, enabled: bool) -> (r: DetectionPipeline)
        ensures
            r.early_termination() == enabled,
            r.detectors() == self.detectors(),
            r.time_budget() == self.time_budget(),
    {
        proof { use_type_invariant(&self); }
        DetectionPipeline { enable_early_termination: enabled, ..self }
    }

    /// The same pipeline with another time budget.
    pub fn with_max_processing_time(self, max_time_us: u64) -> (r: DetectionPipeline)
        ensures
            r.time_budget() == max_time_us,
            r.detectors() == self.detectors(),
            r.early_termination() == self.early_termination(),
    {
        proof { use_type_invariant(&self); }
        DetectionPipeline { max_processing_time_us: max_time_us, ..self }
    }
}

impl DetectionPipeline {
    /// Runs the detectors in order over the frame, each seeing the signals
    /// found before it, and returns the frame with the new signals added
    /// and the largest confidence among them. Detectors that cannot run
    /// are passed over; the run stops once the time budget is spent (which
    /// depends on the clock, read before each runnable detector) and, with
    /// early termination, after a detector whose confidence exceeds 900.
    /// The clock's readings go to the run that `process_timed` makes with
    /// given readings.
    pub fn process<'a>(&mut self, context: DetectionContext<'a>) -> (r: DetectionResult<DetectionContext<'a>>)
        ensures
            final(self).detectors() == old(self).detectors(),
            final(self).early_termination() == old(self).early_termination(),
            final(self).time_budget() == old(self).time_budget(),
            exists|cut: int| {
                let found = #[trigger] run_detectors(old(self).detectors(), *context.rgb, context.previous_signals@, old(self).early_termination(), cut);
                &&& r.result.previous_signals@ == context.previous_signals@ + found
                &&& r.confidence == max_confidence(found)
            },
            r.result.rgb == context.rgb,
            r.result.dimensions == context.dimensions,
            r.result.region == context.region,
    {
        let start_time = instant_now();
        let r = self.run(context, &start_time, None);
        r.with_timing(&start_time)
    }

    /// The run of `process` with the time spent by the moment each position
    /// is reached given as `elapsed` (one reading per detector, in running
    /// order) and the total time as `total_us`: the detectors up to
    /// `timed_cut` run.
    pub fn process_timed<'a>(&self, context: DetectionContext<'a>, elapsed: &Vec<u64>, total_us: u64) -> (r: DetectionResult<DetectionContext<'a>>)
        requires
            elapsed@.len() >= self.detectors().len(),
        ensures
            ({
                let found = run_detectors(self.detectors(), *context.rgb, context.previous_signals@, self.early_termination(),
                    timed_cut(self.detectors(), *context.rgb, context.previous_signals@, self.early_termination(), elapsed@, self.time_budget()));
                &&& r.result.previous_signals@ == context.previous_signals@ + found
                &&& r.confidence == max_confidence(found)
            }),
            r.result.rgb == context.rgb,
            r.result.dimensions == context.dimensions,
            r.result.region == context.region,
            r.processing_time_us == total_us,
    {
        let start_time = instant_now();
        let r = self.run(context, &start_time, Some(elapsed));
        r.with_processing_time(total_us)
    }

    /// The run itself: before each runnable detector the time spent is the
    /// given reading for its position, or else the clock's reading since
    /// `start_time`.
    fn run<'a>(&self, context: DetectionContext<'a>, start_time: &std::time::Instant, elapsed: Option<&Vec<u64>>) -> (r: DetectionResult<DetectionContext<'a>>)
        requires
            elapsed matches Some(rs) ==> rs@.len() >= self.detectors().len(),
        ensures
            exists|cut: int| {
                let found = #[trigger] run_detectors(self.detectors(), *context.rgb, context.previous_signals@, self.early_termination(), cut);
                &&& r.result.previous_signals@ == context.previous_signals@ + found
                &&& r.confidence == max_confidence(found)
                &&& (elapsed matches Some(rs) ==> cut == timed_cut(self.detectors(), *context.rgb, context.previous_signals@, self.early_termination(), rs@, self.time_budget()))
            },
            r.result.rgb == context.rgb,
            r.result.dimensions == context.dimensions,
            r.result.region == context.region,
    {
        let ghost ds = self.detectors@;
        let ghost img = *context.rgb;
        let ghost init = context.previous_signals@;
        let ghost dims = context.dimensions;
        let ghost region = context.region;
        let ghost has = elapsed is Some;
        let ghost rs: Seq<u64> = match elapsed { Some(v) => v@, None => Seq::empty() };
        let ghost b = self.max_processing_time_us;
        let early = self.enable_early_termination;
        let mut context = context;
        let mut all_signals: Vec<DetectionSignal> = Vec::new();
        let mut processing_log: Vec<String> = Vec::new();
        let ghost mut cut: int = ds.len() as int;
        let mut i: usize = 0;
        proof {
            assert(ds.skip(0) =~= ds);
            assert(rs.skip(0) =~= rs);
            assert(init + all_signals@ =~= init);
            assert forall|c: int| c >= 0 implies #[trigger] run_detectors(ds, img, init, early, c)
                == all_signals@ + run_detectors(ds.skip(0), img, context.previous_signals@, early, c - 0) by {
                assert(all_signals@ + run_detectors(ds, img, init, early, c) =~= run_detectors(ds, img, init, early, c));
            }
        }
        loop
            invariant_except_break
                ds == self.detectors@,
                early == self.enable_early_termination,
                i <= ds.len(),
                *context.rgb == img,
                context.dimensions == dims,
                context.region == region,
                context.previous_signals@ == init + all_signals@,
                forall|c: int| c >= i ==> #[trigger] run_detectors(ds, img, init, early, c)
                    == all_signals@ + run_detectors(ds.skip(i as int), img, context.previous_signals@, early, c - i),
                has == elapsed is Some,
                elapsed matches Some(v) ==> v@ == rs,
                b == self.max_processing_time_us,
                has ==> rs.len() >= ds.len(),
                has ==> timed_cut(ds, img, init, early, rs, b)
                    == i + timed_cut(ds.skip(i as int), img, context.previous_signals@, early, rs.skip(i as int), b),
            ensures
                has ==> cut == timed_cut(ds, img, init, early, rs, b),
                *context.rgb == img,
                context.dimensions == dims,
                context.region == region,
                context.previous_signals@ == init + all_signals@,
                run_detectors(ds, img, init, early, cut) == all_signals@,
            decreases ds.len() - i,
        {
            if i >= self.detectors.len() {
                proof {
                    cut = ds.len() as int;
                    assert(ds.skip(i as int).len() == 0);
                    assert(timed_cut(ds.skip(i as int), img, context.previous_signals@, early, rs.skip(i as int), b) == 0);
                    assert(run_detectors(ds, img, init, early, cut) == all_signals@ + run_detectors(ds.skip(i as int), img, context.previous_signals@, early, cut - i));
                    assert(all_signals@ + Seq::<DetectionSignal>::empty() =~= all_signals@);
                }
                break;
            }
            let d = self.detectors[i];
            proof {
                assert(ds.skip(i as int).drop_first() =~= ds.skip(i + 1));
                if has {
                    assert(rs.skip(i as int).drop_first() =~= rs.skip(i + 1));
                }
            }
            if !d.can_process(&context) {
                i = i + 1;
                continue;
            }
            let spent: u64 = match elapsed {
                Some(v) => v[i],
                None => micros_since(start_time),
            };
            if spent > self.max_processing_time_us {
                processing_log.push("Stopped processing due to time limit".to_owned());
                proof {
                    cut = i as int;
                    assert(run_detectors(ds, img, init, early, cut) == all_signals@ + run_detectors(ds.skip(i as int), img, context.previous_signals@, early, 0));
                    assert(all_signals@ + Seq::<DetectionSignal>::empty() =~= all_signals@);
                }
                break;
            }
            let detector_start = instant_now();
            let result = d.detect(&context);
            let detector_time = micros_since(&detector_start);
            let mut entry = d.name().to_owned();
            entry.append(with_count(": ", result.result.len() as u64, " signals in ").as_str());
            entry.append(decimal_string(detector_time).as_str());
            entry.append("us");
            processing_log.push(entry);
            let ghost before_all = all_signals@;
            let ghost before_ctx = context.previous_signals@;
            let mut j: usize = 0;
            while j < result.result.len()
                invariant
                    j <= result.result@.len(),
                    *context.rgb == img,
                    context.dimensions == dims,
                    context.region == region,
                    all_signals@ == before_all + result.result@.take(j as int),
                    context.previous_signals@ == before_ctx + result.result@.take(j as int),
                decreases result.result@.len() - j,
            {
                let s = result.result[j].clone();
                context.add_signal(s);
                all_signals.push(result.result[j].clone());
                proof {
                    assert(result.result@.take(j + 1) =~= result.result@.take(j as int).push(result.result@[j as int]));
                    assert(before_all + result.result@.take(j + 1) =~= (before_all + result.result@.take(j as int)).push(result.result@[j as int]));
                    assert(before_ctx + result.result@.take(j + 1) =~= (before_ctx + result.result@.take(j as int)).push(result.result@[j as int]));
                }
                j = j + 1;
            }
            proof {
                assert(result.result@.take(j as int) =~= result.result@);
                assert(context.previous_signals@ =~= init + all_signals@);
            }
            if early && result.confidence > 900 {
                processing_log.push("Early termination due to high confidence".to_owned());
                proof {
                    cut = i + 1;
                    assert(run_detectors(ds, img, init, early, cut) == before_all + run_detectors(ds.skip(i as int), img, before_ctx, early, cut - i));
                }
                break;
            }
            proof {
                assert forall|c: int| c >= i + 1 implies #[trigger] run_detectors(ds, img, init, early, c)
                    == all_signals@ + run_detectors(ds.skip(i + 1), img, context.previous_signals@, early, c - (i + 1)) by {
                    assert(run_detectors(ds, img, init, early, c) == before_all + run_detectors(ds.skip(i as int), img, before_ctx, early, c - i));
                    assert(before_all + (result.result@ + run_detectors(ds.skip(i + 1), img, context.previous_signals@, early, c - (i + 1)))
                        =~= all_signals@ + run_detectors(ds.skip(i + 1), img, context.previous_signals@, early, c - (i + 1)));
                }
            }
            i = i + 1;
        }
        let confidence = overall_confidence(&all_signals);
        let mut reasoning = with_count("Pipeline processed ", processing_log.len() as u64, " detectors, found ");
        reasoning.append(with_count("", all_signals.len() as u64, " signals: ").as_str());
        reasoning.append(join(&processing_log, "; ").as_str());
        let r = DetectionResult::new(context, confidence, reasoning);
        proof {
            let found = run_detectors(ds, img, init, early, cut);
            assert(r.result.previous_signals@ == init + found);
            assert(r.confidence == max_confidence(found));
            assert(run_detectors(self.detectors(), img, init, self.early_termination(), cut) == found);
        }
        r
    }

    /// The number of detectors, their names in running order, and the
    /// settings.
    pub fn get_stats(&self) -> (r: PipelineStats)
        ensures
            r.total_detectors == self.detectors().len(),
            r.detector_names@.len() == self.detectors().len(),
            forall|i: int| 0 <= i < self.detectors().len() ==> #[trigger] r.detector_names@[i]@ == detector_name(self.detectors()[i]),
            r.early_termination_enabled == self.early_termination(),
            r.max_processing_time_us == self.time_budget(),
            by_priority(self.detectors()),
    {
        proof { use_type_invariant(self); }
        let mut names: Vec<String> = Vec::new();
        let mut i: usize = 0;
        while i < self.detectors.len()
            invariant
                i <= self.detectors@.len(),
                names@.len() == i,
                forall|j: int| 0 <= j < i ==> #[trigger] names@[j]@ == detector_name(self.detectors@[j]),
            decreases self.detectors@.len() - i,
        {
            names.push(self.detectors[i].name().to_owned());
            i = i + 1;
        }
        PipelineStats {
            total_detectors: self.detectors.len(),
            detector_names: names,
            early_termination_enabled: self.enable_early_termination,
            max_processing_time_us: self.max_processing_time_us,
        }
    }

    /// Each detector's name with its priority, in running order.
    pub fn get_detector_priorities(&self) -> (r: Vec<(String, u8)>)
        ensures
            r@.len() == self.detectors().len(),
            forall|i: int| 0 <= i < self.detectors().len() ==> #[trigger] r@[i].0@ == detector_name(self.detectors()[i])
                && r@[i].1 == priority_of(self.detectors()[i]),
    {
        let mut out: Vec<(String, u8)> = Vec::new();
        let mut i: usize = 0;
        while i < self.detectors.len()
            invariant
                i <= self.detectors@.len(),
                out@.len() == i,
                forall|j: int| 0 <= j < i ==> #[trigger] out@[j].0@ == detector_name(self.detectors@[j])
                    && out@[j].1 == priority_of(self.detectors@[j]),
            decreases self.detectors@.len() - i,
        {
            out.push((self.detectors[i].name().to_owned(), self.detectors[i].priority()));
            i = i + 1;
        }
        out
    }
}

/// With the detectors before position `k` satisfying `p` and the rest not,
/// exactly `k` of them satisfy it.
proof fn lemma_filter_prefix(ds: Seq<VisualDetector>, k: int, p: spec_fn(VisualDetector) -> bool)
    requires
        0 <= k <= ds.len(),
        forall|j: int| 0 <= j < k ==> p(#[trigger] ds[j]),
        forall|j: int| k <= j < ds.len() ==> !p(#[trigger] ds[j]),
    ensures
        ds.filter(p).len() == k,
    decreases ds.len(),
{
    reveal(Seq::filter);
    if ds.len() == 0 {
    } else {
        let last = ds.last();
        if k == ds.len() {
            lemma_filter_prefix(ds.drop_last(), k - 1, p);
        } else {
            lemma_filter_prefix(ds.drop_last(), k, p);
        }
    }
}

} // verus!
