//! Frame replays: which samples count, when input is dispatched, and what the
//! measured samples amount to.
use crate::clock::Moment;
use crate::text::{decimal, decimal_text, same_text};
use vstd::prelude::*;

verus! {

pub const WARMUP_FRAMES: usize = 20;

pub const SAMPLE_FRAMES: usize = 200;

pub const INPUT_SAMPLE_FRAMES: usize = 50;

/// Input is dispatched every so many cadence samples.
pub const INPUT_SAMPLE_STRIDE: usize = SAMPLE_FRAMES / INPUT_SAMPLE_FRAMES;

/// The state of a performance replay between two frame callbacks.
#[derive(Debug, PartialEq, Eq)]
pub struct NativeFrameReplay {
    pub callbacks: usize,
    pub last_callback_at: Option<Moment>,
    pub cadence_samples: Vec<u128>,
    pub pending_input_at: Option<Moment>,
    pub input_dispatches: usize,
    pub input_post_render_samples: Vec<u128>,
    pub resident_before: Option<u64>,
    pub resident_after_warmup: Option<u64>,
}

/// Whole microseconds between two moments, nothing where they are reversed.
pub open spec fn micros_between(earlier: Moment, later: Moment) -> u128 {
    (later.spec_since(earlier).nanos / 1_000) as u128
}

fn elapsed_micros(earlier: Moment, later: Moment) -> (micros: u128)
    ensures
        micros == micros_between(earlier, later),
{
    later.saturating_since(earlier).as_micros() as u128
}

/// The samples after one more, where there is one.
pub open spec fn sampled(samples: Seq<u128>, sample: Option<u128>) -> Seq<u128> {
    match sample {
        Some(sample) => samples.push(sample),
        None => samples,
    }
}

impl NativeFrameReplay {
    pub fn new(resident_before: Option<u64>) -> (replay: Self)
        ensures
            replay.callbacks == 0,
            replay.last_callback_at is None,
            replay.cadence_samples@ == Seq::<u128>::empty(),
            replay.pending_input_at is None,
            replay.input_dispatches == 0,
            replay.input_post_render_samples@ == Seq::<u128>::empty(),
            replay.resident_before == resident_before,
            replay.resident_after_warmup is None,
            replay.inputs_are_paired(),
    {
        NativeFrameReplay {
            callbacks: 0,
            last_callback_at: None,
            cadence_samples: Vec::with_capacity(SAMPLE_FRAMES),
            pending_input_at: None,
            input_dispatches: 0,
            input_post_render_samples: Vec::with_capacity(INPUT_SAMPLE_FRAMES),
            resident_before,
            resident_after_warmup: None,
        }
    }

    /// Every dispatched input has one sample, or is waiting for the callback
    /// that will give it one.
    pub open spec fn inputs_are_paired(self) -> bool {
        self.input_dispatches == self.input_post_render_samples@.len() + (
        if self.pending_input_at is Some {
            1int
        } else {
            0
        })
    }

    /// The cadence sample that a callback adds: none while warming up, and none
    /// once enough are there.
    pub open spec fn cadence_sample(self, now: Moment) -> Option<u128> {
        if self.last_callback_at is Some && self.callbacks >= WARMUP_FRAMES
            && self.cadence_samples@.len() < SAMPLE_FRAMES {
            Some(micros_between(self.last_callback_at->0, now))
        } else {
            None
        }
    }

    /// A frame was rendered: it answers the input that was pending, and adds to
    /// the cadence. True at the end of the warm-up, when resident memory is to
    /// be measured.
    pub fn observe_frame_callback(&mut self, now: Moment) -> (warmed_up: bool)
        requires
            old(self).callbacks < usize::MAX,
        ensures
            final(self).callbacks == old(self).callbacks + 1,
            final(self).last_callback_at == Some(now),
            final(self).cadence_samples@ == sampled(
                old(self).cadence_samples@,
                old(self).cadence_sample(now),
            ),
            final(self).pending_input_at is None,
            final(self).input_dispatches == old(self).input_dispatches,
            final(self).input_post_render_samples@ == sampled(
                old(self).input_post_render_samples@,
                match old(self).pending_input_at {
                    Some(dispatched_at) => Some(micros_between(dispatched_at, now)),
                    None => None,
                },
            ),
            final(self).resident_before == old(self).resident_before,
            final(self).resident_after_warmup == old(self).resident_after_warmup,
            warmed_up == (old(self).callbacks + 1 == WARMUP_FRAMES),
            old(self).inputs_are_paired() ==> final(self).inputs_are_paired(),
    {
        if let Some(dispatched_at) = self.pending_input_at {
            self.input_post_render_samples.push(elapsed_micros(dispatched_at, now));
        }
        self.pending_input_at = None;
        if let Some(previous) = self.last_callback_at {
            if self.callbacks >= WARMUP_FRAMES && self.cadence_samples.len() < SAMPLE_FRAMES {
                self.cadence_samples.push(elapsed_micros(previous, now));
            }
        }
        self.last_callback_at = Some(now);
        self.callbacks = self.callbacks + 1;
        self.callbacks == WARMUP_FRAMES
    }

    /// Keeps the resident memory that was measured after the warm-up.
    pub fn record_warmup_resident(&mut self, resident: Option<u64>)
        ensures
            *final(self) == (NativeFrameReplay { resident_after_warmup: resident, ..*old(self) }),
    {
        self.resident_after_warmup = resident;
    }

    pub open spec fn wants_input(self) -> bool {
        self.pending_input_at is None && self.input_dispatches < INPUT_SAMPLE_FRAMES
            && self.cadence_samples@.len() > 0 && self.cadence_samples@.len()
            % INPUT_SAMPLE_STRIDE as nat == 0
    }

    pub fn should_dispatch_input(&self) -> (yes: bool)
        ensures
            yes == self.wants_input(),
    {
        self.pending_input_at.is_none() && self.input_dispatches < INPUT_SAMPLE_FRAMES
            && self.cadence_samples.len() > 0 && self.cadence_samples.len() % INPUT_SAMPLE_STRIDE
            == 0
    }

    pub fn mark_input_dispatched(&mut self, now: Moment)
        requires
            old(self).input_dispatches < usize::MAX,
        ensures
            *final(self) == (NativeFrameReplay {
                pending_input_at: Some(now),
                input_dispatches: (old(self).input_dispatches + 1) as usize,
                ..*old(self)
            }),
            old(self).inputs_are_paired() && old(self).wants_input() ==> final(self).inputs_are_paired(),
    {
        self.pending_input_at = Some(now);
        self.input_dispatches = self.input_dispatches + 1;
    }

    pub open spec fn is_complete(self) -> bool {
        self.cadence_samples@.len() >= SAMPLE_FRAMES && self.input_post_render_samples@.len()
            >= INPUT_SAMPLE_FRAMES && self.pending_input_at is None
    }

    pub fn complete(&self) -> (done: bool)
        ensures
            done == self.is_complete(),
    {
        self.cadence_samples.len() >= SAMPLE_FRAMES && self.input_post_render_samples.len()
            >= INPUT_SAMPLE_FRAMES && self.pending_input_at.is_none()
    }

    /// What follows on a frame callback that was observed.
    pub fn frame_step(&self) -> (step: FrameStep)
        ensures
            step == (if self.is_complete() {
                FrameStep::Report
            } else if self.wants_input() {
                FrameStep::DispatchInput
            } else {
                FrameStep::NextFrame
            }),
    {
        if self.complete() {
            FrameStep::Report
        } else if self.should_dispatch_input() {
            FrameStep::DispatchInput
        } else {
            FrameStep::NextFrame
        }
    }
}

/// A replay never takes more cadence samples than it needs.
pub proof fn law_cadence_samples_are_bounded(replay: NativeFrameReplay, now: Moment)
    requires
        replay.cadence_samples@.len() <= SAMPLE_FRAMES,
    ensures
        sampled(replay.cadence_samples@, replay.cadence_sample(now)).len() <= SAMPLE_FRAMES,
{
}

/// A completed replay with paired inputs has exactly as many input samples as
/// inputs were dispatched.
pub proof fn law_completed_replay_has_answered_every_input(replay: NativeFrameReplay)
    requires
        replay.inputs_are_paired(),
        replay.is_complete(),
    ensures
        replay.input_post_render_samples@.len() == replay.input_dispatches,
{
}

#[derive(Debug, Clone, Copy, PartialEq, Eq, Structural)]
pub enum FrameStep {
    /// All samples are there: report and quit.
    Report,
    /// Type one key, then go on with the next frame.
    DispatchInput,
    /// Go on with the next frame.
    NextFrame,
}

/// Whether samples are in ascending order.
pub open spec fn ascending(samples: Seq<u128>) -> bool {
    forall|i: int, j: int| 0 <= i <= j < samples.len() ==> samples[i] <= samples[j]
}

/// Calls `slice::sort_unstable`, of which the documentation says that it sorts
/// the slice in ascending order: the same samples come out, in order.
#[verifier::external_body]
fn sort_samples(samples: &mut Vec<u128>)
    ensures
        ascending(final(samples)@),
        final(samples)@.to_multiset() == old(samples)@.to_multiset(),
        final(samples)@.len() == old(samples)@.len(),
{
    samples.sort_unstable();
}

/// The place of the nearest-rank percentile among `count` ordered samples.
pub open spec fn nearest_rank(count: nat, percentile: nat) -> int {
    (count * percentile + 99) / 100 - 1
}

/// Orders the samples and returns their nearest-rank percentile.
pub fn percentile(samples: &mut Vec<u128>, share: usize) -> (value: u128)
    requires
        old(samples)@.len() > 0,
        1 <= share <= 100,
        old(samples)@.len() * share <= usize::MAX,
    ensures
        ascending(final(samples)@),
        final(samples)@.to_multiset() == old(samples)@.to_multiset(),
        final(samples)@.len() == old(samples)@.len(),
        0 <= nearest_rank(old(samples)@.len(), share as nat) < old(samples)@.len(),
        value == final(samples)@[nearest_rank(old(samples)@.len(), share as nat)],
{
    sort_samples(samples);
    let count: usize = samples.len();
    assert(1 <= count * share <= count * 100) by (nonlinear_arith)
        requires
            1 <= count,
            1 <= share <= 100,
    ;
    let shares: usize = count * share;
    let rank: usize = if shares % 100 == 0 {
        shares / 100
    } else {
        shares / 100 + 1
    };
    samples[rank - 1]
}

/// The nearest-rank percentile has at least its share of the samples at or
/// below it, and one rank less would not have.
pub proof fn law_nearest_rank_covers_its_share(count: nat, percentile: nat)
    requires
        count > 0,
        1 <= percentile <= 100,
    ensures
        0 <= nearest_rank(count, percentile) < count,
        (nearest_rank(count, percentile) + 1) * 100 >= count * percentile,
        nearest_rank(count, percentile) * 100 < count * percentile,
{
    assert(1 <= count * percentile <= count * 100) by (nonlinear_arith)
        requires
            1 <= count,
            1 <= percentile <= 100,
    ;
}

/// A field of a trace line.
#[derive(Debug, PartialEq, Eq)]
pub struct TraceField {
    pub name: &'static str,
    pub value: String,
}

/// The name and the value of a field.
pub open spec fn field_pairs(fields: Seq<TraceField>) -> Seq<(Seq<char>, Seq<char>)> {
    fields.map_values(|field: TraceField| (field.name@, field.value@))
}

/// The text of the fields of a trace line.
pub open spec fn field_text(fields: Seq<(Seq<char>, Seq<char>)>) -> Seq<char>
    decreases fields.len(),
{
    if fields.len() == 0 {
        Seq::empty()
    } else {
        field_text(fields.drop_last()) + "\t"@ + fields.last().0 + "="@ + fields.last().1
    }
}

/// Writes a trace line: the event, then its fields, separated by tabs.
pub fn trace_line(event: &str, fields: &Vec<TraceField>) -> (line: String)
    ensures
        line@ == event@ + field_text(field_pairs(fields@)),
{
    let mut line = event.to_owned();
    let mut index: usize = 0;
    let ghost pairs = field_pairs(fields@);
    assert(line@ =~= event@ + field_text(pairs.take(0)));
    while index < fields.len()
        invariant
            index <= fields@.len(),
            pairs == field_pairs(fields@),
            line@ == event@ + field_text(pairs.take(index as int)),
        decreases fields@.len() - index,
    {
        line.append("\t");
        line.append(fields[index].name);
        line.append("=");
        line.append(fields[index].value.as_str());
        assert(pairs.take(index + 1).drop_last() =~= pairs.take(index as int));
        assert(line@ =~= event@ + field_text(pairs.take(index + 1)));
        index = index + 1;
    }
    assert(pairs.take(pairs.len() as int) =~= pairs);
    line
}

fn field(name: &'static str, value: String) -> (field: TraceField)
    ensures
        field.name == name,
        field.value == value,
{
    TraceField { name, value }
}

/// What a completed performance replay has measured.
#[derive(Debug, Clone, Copy, PartialEq, Eq, Structural)]
pub struct FrameReport {
    pub presented_frames: usize,
    pub cadence_p95_micros: u128,
    pub input_samples: usize,
    pub input_p95_micros: u128,
    pub input_p99_micros: u128,
    pub resident_supported: bool,
    pub resident_before: u64,
    pub resident_after_warmup: u64,
    pub resident_after: u64,
    pub resident_startup_growth: u64,
    pub resident_steady_growth: u64,
}

/// The growth between two measurements, nothing where one is missing.
pub open spec fn growth(before: Option<u64>, after: Option<u64>) -> u64 {
    if before is Some && after is Some && after->0 > before->0 {
        (after->0 - before->0) as u64
    } else {
        0
    }
}

fn measured_growth(before: Option<u64>, after: Option<u64>) -> (grown: u64)
    ensures
        grown == growth(before, after),
{
    match (before, after) {
        (Some(before), Some(after)) => after.saturating_sub(before),
        _ => 0,
    }
}

pub open spec fn measured_or_zero(measured: Option<u64>) -> u64 {
    match measured {
        Some(measured) => measured,
        None => 0,
    }
}

fn or_zero(measured: Option<u64>) -> (value: u64)
    ensures
        value == measured_or_zero(measured),
{
    match measured {
        Some(measured) => measured,
        None => 0,
    }
}

impl NativeFrameReplay {
    /// Sums a completed replay up; orders its samples.
    pub fn report(&mut self, resident_after: Option<u64>) -> (report: FrameReport)
        requires
            old(self).cadence_samples@.len() > 0,
            old(self).cadence_samples@.len() * 95 <= usize::MAX,
            old(self).input_post_render_samples@.len() > 0,
            old(self).input_post_render_samples@.len() * 99 <= usize::MAX,
        ensures
            final(self).cadence_samples@.to_multiset() == old(self).cadence_samples@.to_multiset(),
            final(self).input_post_render_samples@.to_multiset() == old(self).input_post_render_samples@.to_multiset(),
            ascending(final(self).cadence_samples@),
            ascending(final(self).input_post_render_samples@),
            report == ({
                let cadence = final(self).cadence_samples@;
                let input = final(self).input_post_render_samples@;
                FrameReport {
                    presented_frames: old(self).cadence_samples@.len() as usize,
                    cadence_p95_micros: cadence[nearest_rank(
                        old(self).cadence_samples@.len(),
                        95,
                    )],
                    input_samples: old(self).input_post_render_samples@.len() as usize,
                    input_p95_micros: input[nearest_rank(
                        old(self).input_post_render_samples@.len(),
                        95,
                    )],
                    input_p99_micros: input[nearest_rank(
                        old(self).input_post_render_samples@.len(),
                        99,
                    )],
                    resident_supported: old(self).resident_before is Some
                        && old(self).resident_after_warmup is Some && resident_after is Some,
                    resident_before: measured_or_zero(old(self).resident_before),
                    resident_after_warmup: measured_or_zero(old(self).resident_after_warmup),
                    resident_after: measured_or_zero(resident_after),
                    resident_startup_growth: growth(
                        old(self).resident_before,
                        old(self).resident_after_warmup,
                    ),
                    resident_steady_growth: growth(
                        old(self).resident_after_warmup,
                        resident_after,
                    ),
                }
            }),
    {
        let cadence_p95_micros: u128 = percentile(&mut self.cadence_samples, 95);
        let input_p95_micros: u128 = percentile(&mut self.input_post_render_samples, 95);
        let ghost once = self.input_post_render_samples@;
        let input_p99_micros: u128 = percentile(&mut self.input_post_render_samples, 99);
        proof {
            lemma_ordered_samples_are_unique(once, self.input_post_render_samples@);
        }
        FrameReport {
            presented_frames: self.cadence_samples.len(),
            cadence_p95_micros,
            input_samples: self.input_post_render_samples.len(),
            input_p95_micros,
            input_p99_micros,
            resident_supported: self.resident_before.is_some()
                && self.resident_after_warmup.is_some() && resident_after.is_some(),
            resident_before: or_zero(self.resident_before),
            resident_after_warmup: or_zero(self.resident_after_warmup),
            resident_after: or_zero(resident_after),
            resident_startup_growth: measured_growth(
                self.resident_before,
                self.resident_after_warmup,
            ),
            resident_steady_growth: measured_growth(self.resident_after_warmup, resident_after),
        }
    }
}

/// How a switch is written in a trace.
pub open spec fn flag_text(flag: bool) -> Seq<char> {
    if flag {
        "true"@
    } else {
        "false"@
    }
}

fn bool_text(flag: bool) -> (text: String)
    ensures
        text@ == flag_text(flag),
{
    if flag {
        "true".to_owned()
    } else {
        "false".to_owned()
    }
}

impl FrameReport {
    /// The fields of the trace line for a report.
    pub open spec fn fields(self, platform: Seq<char>) -> Seq<(Seq<char>, Seq<char>)> {
        seq![
            ("platform"@, platform),
            ("native_presented_frames"@, decimal(self.presented_frames as nat)),
            ("native_frame_cadence_p95_us"@, decimal(self.cadence_p95_micros as nat)),
            ("native_input_samples"@, decimal(self.input_samples as nat)),
            ("native_input_dispatch_to_post_render_p95_us"@, decimal(self.input_p95_micros as nat)),
            ("native_input_dispatch_to_post_render_p99_us"@, decimal(self.input_p99_micros as nat)),
            ("native_rss_supported"@, flag_text(self.resident_supported)),
            ("native_rss_before_bytes"@, decimal(self.resident_before as nat)),
            ("native_rss_after_warmup_bytes"@, decimal(self.resident_after_warmup as nat)),
            ("native_rss_after_bytes"@, decimal(self.resident_after as nat)),
            ("native_rss_startup_growth_bytes"@, decimal(self.resident_startup_growth as nat)),
            ("native_rss_steady_growth_bytes"@, decimal(self.resident_steady_growth as nat)),
        ]
    }

    /// The trace line for a report.
    pub fn line(&self, platform: &str) -> (line: String)
        ensures
            line@ == "desktop_perf"@ + field_text(self.fields(platform@)),
    {
        let fields: Vec<TraceField> = vec![
            field("platform", platform.to_owned()),
            field("native_presented_frames", decimal_text(self.presented_frames as u128)),
            field("native_frame_cadence_p95_us", decimal_text(self.cadence_p95_micros as u128)),
            field("native_input_samples", decimal_text(self.input_samples as u128)),
            field("native_input_dispatch_to_post_render_p95_us", decimal_text(self.input_p95_micros as u128)),
            field("native_input_dispatch_to_post_render_p99_us", decimal_text(self.input_p99_micros as u128)),
            field("native_rss_supported", bool_text(self.resident_supported)),
            field("native_rss_before_bytes", decimal_text(self.resident_before as u128)),
            field("native_rss_after_warmup_bytes", decimal_text(self.resident_after_warmup as u128)),
            field("native_rss_after_bytes", decimal_text(self.resident_after as u128)),
            field("native_rss_startup_growth_bytes", decimal_text(self.resident_startup_growth as u128)),
            field("native_rss_steady_growth_bytes", decimal_text(self.resident_steady_growth as u128)),
        ];
        assert(field_pairs(fields@) =~= self.fields(platform@));
        trace_line("desktop_perf", &fields)
    }
}

/// The trace lines of the click-to-photon surface.
pub open spec fn click_fields(run: Seq<char>, click: ClickToPhoton) -> Seq<(Seq<char>, Seq<char>)> {
    seq![
        ("run"@, run),
        ("sample"@, decimal(click.samples as nat)),
        ("bright"@, flag_text(click.bright)),
    ]
}

impl ClickToPhoton {
    /// The trace line for an input that was received.
    pub fn received_line(&self, run: &str) -> (line: String)
        ensures
            line@ == "desktop_trace\tclick_to_photon_input_received"@ + field_text(
                click_fields(run@, *self),
            ),
    {
        let fields: Vec<TraceField> = vec![
            field("run", run.to_owned()),
            field("sample", decimal_text(self.samples as u128)),
            field("bright", bool_text(self.bright)),
        ];
        assert(field_pairs(fields@) =~= click_fields(run@, *self));
        trace_line("desktop_trace\tclick_to_photon_input_received", &fields)
    }

    /// The trace line for the frame that answered an input.
    pub fn rendered_line(&self, run: &str, micros: u128) -> (line: String)
        ensures
            line@ == "desktop_trace\tclick_to_photon_post_render"@ + field_text(
                click_fields(run@, *self).push(
                    ("input_received_to_post_render_us"@, decimal(micros as nat)),
                ),
            ),
    {
        let fields: Vec<TraceField> = vec![
            field("run", run.to_owned()),
            field("sample", decimal_text(self.samples as u128)),
            field("bright", bool_text(self.bright)),
            field("input_received_to_post_render_us", decimal_text(micros)),
        ];
        assert(field_pairs(fields@) =~= click_fields(run@, *self).push(
            ("input_received_to_post_render_us"@, decimal(micros as nat)),
        ));
        trace_line("desktop_trace\tclick_to_photon_post_render", &fields)
    }
}

/// The samples have one ascending order.
proof fn lemma_ordered_samples_are_unique(left: Seq<u128>, right: Seq<u128>)
    requires
        ascending(left),
        ascending(right),
        left.to_multiset() == right.to_multiset(),
    ensures
        left == right,
{
    let order = |a: u128, b: u128| a <= b;
    assert(vstd::relations::sorted_by(left, order));
    assert(vstd::relations::sorted_by(right, order));
    assert(vstd::relations::total_ordering(order));
    vstd::seq_lib::lemma_sorted_unique(left, right, order);
}

/// A surface whose brightness flips with the space key, to measure the time
/// from a key to the light of the screen.
#[derive(Debug, Clone, Copy, PartialEq, Eq, Structural)]
pub struct ClickToPhoton {
    pub bright: bool,
    pub samples: u64,
}

#[derive(Debug, Clone, Copy, PartialEq, Eq, Structural)]
pub enum ClickStep {
    Quit,
    Ignore,
    /// The surface has flipped: trace the sample and repaint.
    Sample,
}

impl ClickToPhoton {
    /// A key went down: `escape` quits, a fresh `space` takes a sample.
    pub fn on_key_down(&mut self, key: &str, is_held: bool) -> (step: ClickStep)
        ensures
            step == (if key@ == "escape"@ {
                ClickStep::Quit
            } else if is_held || key@ != "space"@ {
                ClickStep::Ignore
            } else {
                ClickStep::Sample
            }),
            step is Sample ==> final(self).bright == !old(self).bright && final(self).samples == (
            if old(self).samples == u64::MAX {
                u64::MAX as int
            } else {
                old(self).samples + 1
            }),
            !(step is Sample) ==> *final(self) == *old(self),
    {
        if same_text(key, "escape") {
            return ClickStep::Quit;
        }
        if is_held || !same_text(key, "space") {
            return ClickStep::Ignore;
        }
        self.bright = !self.bright;
        self.samples = self.samples.saturating_add(1);
        ClickStep::Sample
    }

    /// The colour of the surface.
    pub fn background(self) -> (rgb: u32)
        ensures
            rgb == (if self.bright {
                0xffffffu32
            } else {
                0u32
            }),
    {
        if self.bright {
            0xffffff
        } else {
            0
        }
    }
}

/// How many samples are no larger than a value.
pub open spec fn at_most(samples: Seq<u128>, value: u128) -> nat
    decreases samples.len(),
{
    if samples.len() == 0 {
        0
    } else {
        at_most(samples.drop_last(), value) + (if samples.last() <= value {
            1nat
        } else {
            0
        })
    }
}

proof fn lemma_at_most(samples: Seq<u128>, value: u128, below: int)
    requires
        0 <= below <= samples.len(),
    ensures
        (forall|i: int| 0 <= i < below ==> #[trigger] samples[i] <= value) ==> at_most(samples, value)
            >= below,
        (forall|i: int| below <= i < samples.len() ==> #[trigger] samples[i] > value) ==> at_most(
            samples,
            value,
        ) <= below,
    decreases samples.len(),
{
    if samples.len() > 0 {
        let fewer = samples.drop_last();
        if below == samples.len() {
            lemma_at_most(fewer, value, below - 1);
            if forall|i: int| 0 <= i < below ==> #[trigger] samples[i] <= value {
                assert forall|i: int| 0 <= i < below - 1 implies #[trigger] fewer[i] <= value by {
                    assert(fewer[i] == samples[i]);
                }
                assert(samples[samples.len() - 1] <= value);
            }
        } else {
            lemma_at_most(fewer, value, below);
            if forall|i: int| 0 <= i < below ==> #[trigger] samples[i] <= value {
                assert forall|i: int| 0 <= i < below implies #[trigger] fewer[i] <= value by {
                    assert(fewer[i] == samples[i]);
                }
            }
            if forall|i: int| below <= i < samples.len() ==> #[trigger] samples[i] > value {
                assert forall|i: int| below <= i < fewer.len() implies #[trigger] fewer[i]
                    > value by {
                    assert(fewer[i] == samples[i]);
                }
                assert(samples[samples.len() - 1] > value);
            }
        }
        lemma_at_most_is_bounded(fewer, value);
    }
}

proof fn lemma_at_most_is_bounded(samples: Seq<u128>, value: u128)
    ensures
        at_most(samples, value) <= samples.len(),
    decreases samples.len(),
{
    if samples.len() > 0 {
        lemma_at_most_is_bounded(samples.drop_last(), value);
    }
}

/// A percentile is the least sample that its share of all samples does not exceed: so
/// many are no larger, and of any smaller value fewer are. The hundredth is the largest.
pub proof fn law_percentile_is_the_least_that_covers(
    samples: Seq<u128>,
    share: nat,
    smaller: u128,
)
    requires
        samples.len() > 0,
        1 <= share <= 100,
        ascending(samples),
    ensures
        ({
            let value = samples[nearest_rank(samples.len(), share)];
            &&& at_most(samples, value) * 100 >= samples.len() * share
            &&& smaller < value ==> at_most(samples, smaller) * 100 < samples.len() * share
            &&& share == 100 ==> forall|i: int|
                0 <= i < samples.len() ==> #[trigger] samples[i] <= value
        }),
{
    law_nearest_rank_covers_its_share(samples.len(), share);
    let rank = nearest_rank(samples.len(), share);
    let value = samples[rank];
    lemma_at_most(samples, value, rank + 1);
    assert forall|i: int| 0 <= i < rank + 1 implies #[trigger] samples[i] <= value by {}
    if smaller < value {
        assert forall|i: int| rank <= i < samples.len() implies #[trigger] samples[i] > smaller by {
            assert(samples[rank] <= samples[i]);
        }
        lemma_at_most(samples, smaller, rank);
    }
    if share == 100 {
        assert(rank == samples.len() - 1);
    }
}

/// Time is sampled in whole microseconds, and none where it ran backwards.
pub proof fn law_samples_are_whole_microseconds(earlier: Moment, later: Moment)
    ensures
        earlier.nanos <= later.nanos ==> {
            &&& micros_between(earlier, later) * 1_000 <= later.nanos - earlier.nanos
            &&& later.nanos - earlier.nanos < (micros_between(earlier, later) + 1) * 1_000
        },
        earlier.nanos > later.nanos ==> micros_between(earlier, later) == 0,
{
}

/// Frames are sampled once the first ones are over, from the frame before, and until
/// there are enough; no frame is sampled twice.
pub proof fn law_frames_are_sampled_after_the_warmup(replay: NativeFrameReplay, now: Moment)
    ensures
        replay.callbacks < 20 ==> replay.cadence_sample(now) is None,
        replay.cadence_samples@.len() >= 200 ==> replay.cadence_sample(now) is None,
        replay.last_callback_at is None ==> replay.cadence_sample(now) is None,
        replay.callbacks >= 20 && replay.cadence_samples@.len() < 200 && replay.last_callback_at
            is Some ==> replay.cadence_sample(now) == Some(
            micros_between(replay.last_callback_at->0, now),
        ),
        forall|samples: Seq<u128>, sample: u128| #[trigger]
            sampled(samples, Some(sample)) == samples.push(sample),
        forall|samples: Seq<u128>| #[trigger] sampled(samples, None) == samples,
{
}

/// Input is dispatched every fourth sampled frame, one at a time and fifty times; the
/// replay is over once all samples are there and no input waits.
pub proof fn law_inputs_are_spread_over_the_frames(replay: NativeFrameReplay)
    ensures
        replay.wants_input() <==> replay.pending_input_at is None && replay.input_dispatches < 50
            && replay.cadence_samples@.len() > 0 && replay.cadence_samples@.len() % 4 == 0,
        replay.is_complete() <==> replay.cadence_samples@.len() >= 200
            && replay.input_post_render_samples@.len() >= 50 && replay.pending_input_at is None,
{
}

/// Memory that was not measured counts as none, and memory that shrank has not grown.
pub proof fn law_growth_is_measured(before: u64, after: u64)
    ensures
        after >= before ==> growth(Some(before), Some(after)) == after - before,
        after <= before ==> growth(Some(before), Some(after)) == 0,
        growth(None, Some(after)) == 0,
        growth(Some(before), None) == 0,
        growth(None, None) == 0,
        measured_or_zero(Some(before)) == before,
        measured_or_zero(None) == 0,
{
}

/// A trace line holds its fields one after the other, each as a name and a value behind
/// a tab.
pub proof fn law_trace_lines_hold_their_fields(
    fields: Seq<(Seq<char>, Seq<char>)>,
    name: Seq<char>,
    value: Seq<char>,
)
    ensures
        field_text(Seq::empty()).len() == 0,
        field_text(fields.push((name, value))) == field_text(fields) + seq!['\t'] + name + seq!['=']
            + value,
{
    reveal_strlit("\t");
    reveal_strlit("=");
    assert("\t"@ =~= seq!['\t']);
    assert("="@ =~= seq!['=']);
    assert(fields.push((name, value)).drop_last() =~= fields);
}

/// The report states each measurement under its own name, in one order.
pub proof fn law_report_states_each_measurement(report: FrameReport, platform: Seq<char>)
    ensures
        ({
            let fields = report.fields(platform);
            &&& fields.len() == 12
            &&& fields[0] == ("platform"@, platform)
            &&& fields[1] == ("native_presented_frames"@, decimal(report.presented_frames as nat))
            &&& fields[2] == (
                "native_frame_cadence_p95_us"@,
                decimal(report.cadence_p95_micros as nat),
            )
            &&& fields[3] == ("native_input_samples"@, decimal(report.input_samples as nat))
            &&& fields[4] == (
                "native_input_dispatch_to_post_render_p95_us"@,
                decimal(report.input_p95_micros as nat),
            )
            &&& fields[5] == (
                "native_input_dispatch_to_post_render_p99_us"@,
                decimal(report.input_p99_micros as nat),
            )
            &&& fields[6] == (
                "native_rss_supported"@,
                if report.resident_supported {
                    "true"@
                } else {
                    "false"@
                },
            )
            &&& fields[7] == ("native_rss_before_bytes"@, decimal(report.resident_before as nat))
            &&& fields[8] == (
                "native_rss_after_warmup_bytes"@,
                decimal(report.resident_after_warmup as nat),
            )
            &&& fields[9] == ("native_rss_after_bytes"@, decimal(report.resident_after as nat))
            &&& fields[10] == (
                "native_rss_startup_growth_bytes"@,
                decimal(report.resident_startup_growth as nat),
            )
            &&& fields[11] == (
                "native_rss_steady_growth_bytes"@,
                decimal(report.resident_steady_growth as nat),
            )
        }),
{
}

/// A sample of the click surface is told by its run, its number and its brightness.
pub proof fn law_clicks_are_told_by_run_and_number(run: Seq<char>, click: ClickToPhoton)
    ensures
        click_fields(run, click) == seq![
            ("run"@, run),
            ("sample"@, decimal(click.samples as nat)),
            (
                "bright"@,
                if click.bright {
                    "true"@
                } else {
                    "false"@
                },
            ),
        ],
{
}

} // verus!
