//! The search for the configurations that work on this machine.
//!
//! A search goes in rounds. In each it hands out a batch of probes and
//! waits for their reports: first every format of every hardware backend,
//! then the software fallback, one format at a time. The fallback is
//! handed the adapters on which something was found to produce that
//! format; what it makes of them is its own affair.

use crate::common::{DataFormat, Driver};
use crate::vram::inner::{EncodeCalls, InnerEncodeContext, Native};
use crate::vram::probe::{
    collect, collected, lemma_collected_all, lemma_collected_are_resolved,
    lemma_collected_nothing, lemma_rejected_report_adds_nothing, report_at,
    resolved, ProbeBatch, ProbeBatchView, ProbeReport, ProbeTask,
};
use crate::vram::{DynamicContext, FeatureContext, MAX_ADAPTERS, UNRESOLVED_LUID};
use vstd::prelude::*;

verus! {

/// The context of a format that `driver` was built for, before any probe.
pub open spec fn unresolved(driver: Driver, inner: InnerEncodeContext) -> FeatureContext {
    FeatureContext {
        driver,
        api: inner.api,
        data_format: inner.format,
        luid: UNRESOLVED_LUID,
    }
}

/// The unresolved contexts of all the formats in `inners`, in their order.
pub open spec fn probe_inputs(driver: Driver, inners: Seq<InnerEncodeContext>) -> Seq<
    FeatureContext,
> {
    inners.map_values(|inner: InnerEncodeContext| unresolved(driver, inner))
}

/// The probe that tries `input`.
pub open spec fn task_for(input: FeatureContext) -> ProbeTask {
    ProbeTask {
        entry: EncodeCalls::of(input.driver).test,
        serialized: input.driver.spec_requires_serialization(),
        api: input.api,
        data_format: input.data_format.spec_code(),
    }
}

/// The test of a context for producing `format`.
pub open spec fn produces(format: DataFormat) -> spec_fn(FeatureContext) -> bool {
    |e: FeatureContext| e.data_format == format
}

/// The test of a capability for being one to produce `format`.
pub open spec fn built_for(format: DataFormat) -> spec_fn(InnerEncodeContext) -> bool {
    |e: InnerEncodeContext| e.format == format
}

/// The adapters of those contexts in `found` that produce `format`, in the
/// order of `found`.
pub open spec fn luids_of(found: Seq<FeatureContext>, format: DataFormat) -> Seq<i64> {
    found.filter(produces(format)).map_values(|e: FeatureContext| e.luid)
}

/// The fallback's unresolved contexts for `format`.
pub open spec fn fallback_inputs(fallback: Seq<InnerEncodeContext>, format: DataFormat) -> Seq<
    FeatureContext,
> {
    probe_inputs(Driver::FFMPEG, fallback.filter(built_for(format)))
}

/// Appends to `inputs` the unresolved contexts of `inners`.
fn append_inputs(
    inputs: &mut Vec<FeatureContext>,
    driver: Driver,
    inners: &Vec<InnerEncodeContext>,
)
    ensures
        final(inputs)@ == old(inputs)@ + probe_inputs(driver, inners@),
{
    let mut i: usize = 0;
    while i < inners.len()
        invariant
            i <= inners.len(),
            inputs@ == old(inputs)@ + probe_inputs(driver, inners@.take(i as int)),
        decreases inners.len() - i,
    {
        let inner = inners[i];
        inputs.push(
            FeatureContext {
                driver,
                api: inner.api,
                data_format: inner.format,
                luid: UNRESOLVED_LUID,
            },
        );
        assert(inners@.take(i + 1) == inners@.take(i as int).push(inner));
        i += 1;
    }
    assert(inners@.take(inners.len() as int) == inners@);
}

/// The fallback's unresolved contexts for `format`.
fn plan_fallback(fallback: &Vec<InnerEncodeContext>, format: DataFormat) -> (inputs: Vec<
    FeatureContext,
>)
    ensures
        inputs@ == fallback_inputs(fallback@, format),
{
    let mut inputs: Vec<FeatureContext> = Vec::new();
    let mut i: usize = 0;
    while i < fallback.len()
        invariant
            i <= fallback.len(),
            inputs@ == fallback_inputs(fallback@.take(i as int), format),
        decreases fallback.len() - i,
    {
        let inner = fallback[i];
        if inner.format == format {
            inputs.push(
                FeatureContext {
                    driver: Driver::FFMPEG,
                    api: inner.api,
                    data_format: inner.format,
                    luid: UNRESOLVED_LUID,
                },
            );
        }
        proof {
            assert(fallback@.take(i + 1) == fallback@.take(i as int).push(inner));
            fallback@.take(i as int).lemma_filter_push(inner, built_for(format));
        }
        i += 1;
    }
    assert(fallback@.take(fallback.len() as int) == fallback@);
    inputs
}

/// The adapters of those contexts in `found` that produce `format`.
fn adapters_of(found: &Vec<FeatureContext>, format: DataFormat) -> (luids: Vec<i64>)
    ensures
        luids@ == luids_of(found@, format),
{
    let mut luids: Vec<i64> = Vec::new();
    let mut i: usize = 0;
    while i < found.len()
        invariant
            i <= found.len(),
            luids@ == luids_of(found@.take(i as int), format),
        decreases found.len() - i,
    {
        let e = found[i];
        if e.data_format == format {
            luids.push(e.luid);
        }
        proof {
            assert(found@.take(i + 1) == found@.take(i as int).push(e));
            found@.take(i as int).lemma_filter_push(e, produces(format));
        }
        i += 1;
    }
    assert(found@.take(found.len() as int) == found@);
    luids
}

/// Where a search stands: at the hardware backends, or at the fallback for
/// one format.
#[derive(Clone, Copy, Debug, PartialEq, Eq, Hash)]
pub enum Round {
    Hardware,
    Fallback(DataFormat),
}

/// The format whose fallback round comes first.
pub open spec fn first_format() -> DataFormat {
    DataFormat::H264
}

/// The format whose fallback round follows that of `format`, if any does.
pub open spec fn spec_following(format: DataFormat) -> Option<DataFormat> {
    match format {
        DataFormat::H264 => Some(DataFormat::H265),
        DataFormat::H265 => None,
    }
}

#[verifier::when_used_as_spec(spec_following)]
fn following(format: DataFormat) -> (next: Option<DataFormat>)
    ensures
        next == spec_following(format),
{
    match format {
        DataFormat::H264 => Some(DataFormat::H265),
        DataFormat::H265 => None,
    }
}

/// A search in progress: a batch of probes is out, and the search waits for
/// their reports.
pub struct Prober {
    d: DynamicContext,
    fallback: Vec<InnerEncodeContext>,
    round: Round,
    inputs: Vec<FeatureContext>,
    luid_range: Vec<i64>,
    found: Vec<FeatureContext>,
}

/// A search in progress as a mathematical value.
pub struct ProberView {
    /// The parameters every probe is run with.
    pub d: DynamicContext,
    /// What the fallback was built for.
    pub fallback: Seq<InnerEncodeContext>,
    pub round: Round,
    /// The contexts that the probes of this round try, unresolved.
    pub inputs: Seq<FeatureContext>,
    /// The adapter identities that the probes of this round hand to their
    /// backends.
    pub luid_range: Seq<i64>,
    /// What the earlier rounds found.
    pub found: Seq<FeatureContext>,
}

/// Whether every context in `found` is tied to an adapter.
pub open spec fn all_resolved(found: Seq<FeatureContext>) -> bool {
    forall|k: int| 0 <= k < found.len() ==> (#[trigger] found[k]).spec_is_resolved()
}

/// What a search does on a batch's reports: it goes on with another batch,
/// or ends with what it found.
pub enum ProbeStep {
    Probe(Prober),
    Done(Vec<FeatureContext>),
}

/// A step as a mathematical value.
pub enum ProbeStepView {
    Probe(ProberView),
    Done(Seq<FeatureContext>),
}

impl View for Prober {
    type V = ProberView;

    closed spec fn view(&self) -> ProberView {
        ProberView {
            d: self.d,
            fallback: self.fallback@,
            round: self.round,
            inputs: self.inputs@,
            luid_range: self.luid_range@,
            found: self.found@,
        }
    }
}

impl View for ProbeStep {
    type V = ProbeStepView;

    open spec fn view(&self) -> ProbeStepView {
        match self {
            ProbeStep::Probe(prober) => ProbeStepView::Probe(prober@),
            ProbeStep::Done(found) => ProbeStepView::Done(found@),
        }
    }
}

impl ProberView {
    /// The search at its start: every format of every hardware backend is
    /// to be tried, with no adapter identity handed to the backends.
    pub open spec fn start(
        d: DynamicContext,
        nv: Seq<InnerEncodeContext>,
        amf: Seq<InnerEncodeContext>,
        mfx: Seq<InnerEncodeContext>,
        ffmpeg: Seq<InnerEncodeContext>,
    ) -> ProberView {
        ProberView {
            d,
            fallback: ffmpeg,
            round: Round::Hardware,
            inputs: probe_inputs(Driver::NV, nv) + probe_inputs(Driver::AMF, amf) + probe_inputs(
                Driver::MFX,
                mfx,
            ),
            luid_range: Seq::empty(),
            found: Seq::empty(),
        }
    }

    /// The search at the fallback round for `format`, `found` being what
    /// the rounds before it found: the fallback is tried for that format
    /// only, and is handed the adapters on which something found produces
    /// it.
    pub open spec fn fallback_round(
        d: DynamicContext,
        fallback: Seq<InnerEncodeContext>,
        format: DataFormat,
        found: Seq<FeatureContext>,
    ) -> ProberView {
        ProberView {
            d,
            fallback,
            round: Round::Fallback(format),
            inputs: fallback_inputs(fallback, format),
            luid_range: luids_of(found, format),
            found,
        }
    }

    /// The batch that is out.
    pub open spec fn batch(self) -> ProbeBatchView {
        ProbeBatchView {
            tasks: self.inputs.map_values(|input: FeatureContext| task_for(input)),
            luid_range: self.luid_range,
            max_count: MAX_ADAPTERS as i32,
            width: self.d.width,
            height: self.d.height,
            kbitrate: self.d.kbitrate,
            framerate: self.d.framerate,
            gop: self.d.gop,
        }
    }

    /// The step taken on the reports of the batch that is out, `reports[i]`
    /// being that of `batch().tasks[i]`.
    pub open spec fn advance(self, reports: Seq<Option<ProbeReport>>) -> ProbeStepView {
        let found = self.found + collected(self.inputs, reports);
        let next = match self.round {
            Round::Hardware => Some(first_format()),
            Round::Fallback(format) => spec_following(format),
        };
        match next {
            Some(format) => ProbeStepView::Probe(
                ProberView::fallback_round(self.d, self.fallback, format, found),
            ),
            None => ProbeStepView::Done(found),
        }
    }
}

/// Starts the search for the configurations that work on this machine.
///
/// `nv`, `amf`, `mfx` and `ffmpeg` are what each backend says it was built
/// for; `d` holds the parameters every probe is run with. The search
/// begins with a batch that tries every format of every hardware backend.
pub fn available(
    d: DynamicContext,
    nv: Vec<InnerEncodeContext>,
    amf: Vec<InnerEncodeContext>,
    mfx: Vec<InnerEncodeContext>,
    ffmpeg: Vec<InnerEncodeContext>,
) -> (prober: Prober)
    ensures
        prober@ == ProberView::start(d, nv@, amf@, mfx@, ffmpeg@),
{
    let mut inputs: Vec<FeatureContext> = Vec::new();
    append_inputs(&mut inputs, Driver::NV, &nv);
    append_inputs(&mut inputs, Driver::AMF, &amf);
    append_inputs(&mut inputs, Driver::MFX, &mfx);
    Prober {
        d,
        fallback: ffmpeg,
        round: Round::Hardware,
        inputs,
        luid_range: Vec::new(),
        found: Vec::new(),
    }
}

impl Prober {
    #[verifier::type_invariant]
    spec fn inv(&self) -> bool {
        all_resolved(self.found@)
    }

    /// The batch of probes to run now.
    pub fn batch(&self) -> (batch: ProbeBatch)
        ensures
            batch@ == self@.batch(),
    {
        let mut tasks: Vec<ProbeTask> = Vec::new();
        let mut i: usize = 0;
        while i < self.inputs.len()
            invariant
                i <= self.inputs.len(),
                tasks@ == self.inputs@.take(i as int).map_values(
                    |input: FeatureContext| task_for(input),
                ),
            decreases self.inputs.len() - i,
        {
            let input = self.inputs[i];
            tasks.push(
                ProbeTask {
                    entry: EncodeCalls::for_driver(input.driver).test,
                    serialized: input.driver.requires_serialization(),
                    api: input.api,
                    data_format: input.data_format.code(),
                },
            );
            assert(self.inputs@.take(i + 1) == self.inputs@.take(i as int).push(input));
            i += 1;
        }
        assert(self.inputs@.take(self.inputs.len() as int) == self.inputs@);
        ProbeBatch {
            tasks,
            luid_range: self.luid_range.clone(),
            max_count: MAX_ADAPTERS as i32,
            width: self.d.width,
            height: self.d.height,
            kbitrate: self.d.kbitrate,
            framerate: self.d.framerate,
            gop: self.d.gop,
        }
    }

    /// Takes the reports of the batch that is out, in the order of its
    /// tasks, `None` for a probe that did not finish. A report that is
    /// missing counts as `None`; one too many is not read.
    ///
    /// Whatever the reports say, no context that the search holds or ends
    /// with is unresolved.
    pub fn advance(self, reports: Vec<Option<ProbeReport>>) -> (step: ProbeStep)
        ensures
            step@ == self@.advance(reports@),
            step matches ProbeStep::Probe(next) ==> all_resolved(next@.found),
            step matches ProbeStep::Done(found) ==> all_resolved(found@),
    {
        proof {
            use_type_invariant(&self);
            lemma_collected_are_resolved(self.inputs@, reports@);
        }
        let mut found = self.found;
        collect(&mut found, &self.inputs, &reports);
        let next = match self.round {
            Round::Hardware => Some(DataFormat::H264),
            Round::Fallback(format) => following(format),
        };
        match next {
            Some(format) => {
                let inputs = plan_fallback(&self.fallback, format);
                let luid_range = adapters_of(&found, format);
                ProbeStep::Probe(
                    Prober {
                        d: self.d,
                        fallback: self.fallback,
                        round: Round::Fallback(format),
                        inputs,
                        luid_range,
                        found,
                    },
                )
            },
            None => ProbeStep::Done(found),
        }
    }
}

/// What the hardware round finds.
pub open spec fn hardware_found(
    nv: Seq<InnerEncodeContext>,
    amf: Seq<InnerEncodeContext>,
    mfx: Seq<InnerEncodeContext>,
    reports: Seq<Option<ProbeReport>>,
) -> Seq<FeatureContext> {
    collected(
        probe_inputs(Driver::NV, nv) + probe_inputs(Driver::AMF, amf) + probe_inputs(
            Driver::MFX,
            mfx,
        ),
        reports,
    )
}

/// What the fallback round for `format` finds.
pub open spec fn fallback_found(
    ffmpeg: Seq<InnerEncodeContext>,
    format: DataFormat,
    reports: Seq<Option<ProbeReport>>,
) -> Seq<FeatureContext> {
    collected(fallback_inputs(ffmpeg, format), reports)
}

/// What a whole search finds, given the reports of its three rounds: the
/// findings of the hardware backends, then those of the fallback for each
/// format.
pub open spec fn discovered(
    nv: Seq<InnerEncodeContext>,
    amf: Seq<InnerEncodeContext>,
    mfx: Seq<InnerEncodeContext>,
    ffmpeg: Seq<InnerEncodeContext>,
    hardware: Seq<Option<ProbeReport>>,
    h264: Seq<Option<ProbeReport>>,
    h265: Seq<Option<ProbeReport>>,
) -> Seq<FeatureContext> {
    hardware_found(nv, amf, mfx, hardware) + fallback_found(ffmpeg, DataFormat::H264, h264)
        + fallback_found(ffmpeg, DataFormat::H265, h265)
}

/// A filter that nothing passes leaves nothing.
proof fn lemma_filter_none<A>(s: Seq<A>, pred: spec_fn(A) -> bool)
    requires
        forall|i: int| 0 <= i < s.len() ==> !pred(#[trigger] s[i]),
    ensures
        s.filter(pred) == Seq::<A>::empty(),
    decreases s.len(),
{
    reveal(Seq::filter);
    if s.len() > 0 {
        lemma_filter_none(s.drop_last(), pred);
    }
}

/// A search takes three rounds: the hardware backends, the fallback for
/// H.264 and the fallback for H.265. After the reports of the third it
/// ends with the findings of all three, in that order.
///
/// Each fallback round hands its backend the adapters on which a hardware
/// backend was found to produce the round's format. What the fallback
/// found for another format adds none.
pub proof fn lemma_search_takes_three_rounds(
    d: DynamicContext,
    nv: Seq<InnerEncodeContext>,
    amf: Seq<InnerEncodeContext>,
    mfx: Seq<InnerEncodeContext>,
    ffmpeg: Seq<InnerEncodeContext>,
    hardware: Seq<Option<ProbeReport>>,
    h264: Seq<Option<ProbeReport>>,
    h265: Seq<Option<ProbeReport>>,
)
    ensures
        ({
            let by_hardware = hardware_found(nv, amf, mfx, hardware);
            let second = ProberView::fallback_round(d, ffmpeg, DataFormat::H264, by_hardware);
            let third = ProberView::fallback_round(
                d,
                ffmpeg,
                DataFormat::H265,
                by_hardware + fallback_found(ffmpeg, DataFormat::H264, h264),
            );
            &&& ProberView::start(d, nv, amf, mfx, ffmpeg).advance(hardware)
                == ProbeStepView::Probe(second)
            &&& second.advance(h264) == ProbeStepView::Probe(third)
            &&& third.advance(h265) == ProbeStepView::Done(
                discovered(nv, amf, mfx, ffmpeg, hardware, h264, h265),
            )
            &&& second.luid_range == luids_of(by_hardware, DataFormat::H264)
            &&& third.luid_range == luids_of(by_hardware, DataFormat::H265)
        }),
{
    let by_hardware = hardware_found(nv, amf, mfx, hardware);
    let by_fallback = fallback_found(ffmpeg, DataFormat::H264, h264);
    let inputs = fallback_inputs(ffmpeg, DataFormat::H264);
    assert(Seq::<FeatureContext>::empty() + by_hardware == by_hardware);
    // Whatever the fallback finds for H.264 produces H.264.
    let is_h264 = |e: FeatureContext| e.data_format == DataFormat::H264;
    assert forall|i: int, j: int|
        0 <= i < inputs.len() && 0 <= j < resolved(inputs[i], report_at(h264, i)).len()
        implies is_h264(#[trigger] resolved(inputs[i], report_at(h264, i))[j]) by {
        ffmpeg.lemma_filter_pred(built_for(DataFormat::H264), i);
    }
    lemma_collected_all(inputs, h264, is_h264);
    // So none of it passes the test for H.265.
    assert(by_fallback.filter(produces(DataFormat::H265)) == Seq::<FeatureContext>::empty()) by {
        lemma_filter_none(by_fallback, produces(DataFormat::H265));
    }
    Seq::filter_distributes_over_add(by_hardware, by_fallback, produces(DataFormat::H265));
    assert(by_hardware.filter(produces(DataFormat::H265)) + Seq::<FeatureContext>::empty()
        == by_hardware.filter(produces(DataFormat::H265)));
}

/// Every context that a search returns is tied to an adapter, whatever the
/// backends report.
pub proof fn lemma_discovered_are_resolved(
    nv: Seq<InnerEncodeContext>,
    amf: Seq<InnerEncodeContext>,
    mfx: Seq<InnerEncodeContext>,
    ffmpeg: Seq<InnerEncodeContext>,
    hardware: Seq<Option<ProbeReport>>,
    h264: Seq<Option<ProbeReport>>,
    h265: Seq<Option<ProbeReport>>,
)
    ensures
        all_resolved(discovered(nv, amf, mfx, ffmpeg, hardware, h264, h265)),
{
    let inputs = probe_inputs(Driver::NV, nv) + probe_inputs(Driver::AMF, amf) + probe_inputs(
        Driver::MFX,
        mfx,
    );
    lemma_collected_are_resolved(inputs, hardware);
    lemma_collected_are_resolved(fallback_inputs(ffmpeg, DataFormat::H264), h264);
    lemma_collected_are_resolved(fallback_inputs(ffmpeg, DataFormat::H265), h265);
}

/// Whether one of the backends said it was built for the combination of
/// backend, interface variant and format that `e` is.
pub open spec fn offered(
    nv: Seq<InnerEncodeContext>,
    amf: Seq<InnerEncodeContext>,
    mfx: Seq<InnerEncodeContext>,
    ffmpeg: Seq<InnerEncodeContext>,
    e: FeatureContext,
) -> bool {
    let inner = InnerEncodeContext { api: e.api, format: e.data_format };
    match e.driver {
        Driver::NV => nv.contains(inner),
        Driver::AMF => amf.contains(inner),
        Driver::MFX => mfx.contains(inner),
        Driver::FFMPEG => ffmpeg.contains(inner),
    }
}

/// What a probe finds is what it tried, on some adapter.
proof fn lemma_resolved_keeps_the_input(
    input: FeatureContext,
    report: Option<ProbeReport>,
    j: int,
)
    requires
        0 <= j < resolved(input, report).len(),
    ensures
        resolved(input, report)[j] == (FeatureContext {
            luid: resolved(input, report)[j].luid,
            ..input
        }),
{
}

/// A search returns only combinations that a backend said it was built
/// for.
pub proof fn lemma_discovered_were_offered(
    nv: Seq<InnerEncodeContext>,
    amf: Seq<InnerEncodeContext>,
    mfx: Seq<InnerEncodeContext>,
    ffmpeg: Seq<InnerEncodeContext>,
    hardware: Seq<Option<ProbeReport>>,
    h264: Seq<Option<ProbeReport>>,
    h265: Seq<Option<ProbeReport>>,
)
    ensures
        forall|k: int|
            0 <= k < discovered(nv, amf, mfx, ffmpeg, hardware, h264, h265).len() ==> offered(
                nv,
                amf,
                mfx,
                ffmpeg,
                #[trigger] discovered(nv, amf, mfx, ffmpeg, hardware, h264, h265)[k],
            ),
{
    let was_offered = |e: FeatureContext| offered(nv, amf, mfx, ffmpeg, e);
    let inputs = probe_inputs(Driver::NV, nv) + probe_inputs(Driver::AMF, amf) + probe_inputs(
        Driver::MFX,
        mfx,
    );
    assert forall|i: int, j: int|
        0 <= i < inputs.len() && 0 <= j < resolved(inputs[i], report_at(hardware, i)).len()
        implies was_offered(#[trigger] resolved(inputs[i], report_at(hardware, i))[j]) by {
        lemma_resolved_keeps_the_input(inputs[i], report_at(hardware, i), j);
        if i < nv.len() {
            assert(inputs[i] == unresolved(Driver::NV, nv[i]));
            assert(nv.contains(nv[i]));
        } else if i < nv.len() + amf.len() {
            assert(inputs[i] == unresolved(Driver::AMF, amf[i - nv.len()]));
            assert(amf.contains(amf[i - nv.len()]));
        } else {
            assert(inputs[i] == unresolved(Driver::MFX, mfx[i - nv.len() - amf.len()]));
            assert(mfx.contains(mfx[i - nv.len() - amf.len()]));
        }
    }
    lemma_collected_all(inputs, hardware, was_offered);
    lemma_fallback_found_were_offered(nv, amf, mfx, ffmpeg, DataFormat::H264, h264);
    lemma_fallback_found_were_offered(nv, amf, mfx, ffmpeg, DataFormat::H265, h265);
}

/// The fallback is found only for what it said it was built for.
proof fn lemma_fallback_found_were_offered(
    nv: Seq<InnerEncodeContext>,
    amf: Seq<InnerEncodeContext>,
    mfx: Seq<InnerEncodeContext>,
    ffmpeg: Seq<InnerEncodeContext>,
    format: DataFormat,
    reports: Seq<Option<ProbeReport>>,
)
    ensures
        forall|k: int|
            0 <= k < fallback_found(ffmpeg, format, reports).len() ==> offered(
                nv,
                amf,
                mfx,
                ffmpeg,
                #[trigger] fallback_found(ffmpeg, format, reports)[k],
            ),
{
    let was_offered = |e: FeatureContext| offered(nv, amf, mfx, ffmpeg, e);
    let built = ffmpeg.filter(built_for(format));
    let inputs = fallback_inputs(ffmpeg, format);
    assert forall|i: int, j: int|
        0 <= i < inputs.len() && 0 <= j < resolved(inputs[i], report_at(reports, i)).len()
        implies was_offered(#[trigger] resolved(inputs[i], report_at(reports, i))[j]) by {
        lemma_resolved_keeps_the_input(inputs[i], report_at(reports, i), j);
        assert(inputs[i] == unresolved(Driver::FFMPEG, built[i]));
        assert(built.contains(built[i]));
        ffmpeg.lemma_filter_contains_rev(built_for(format), built[i]);
    }
    lemma_collected_all(inputs, reports, was_offered);
}

/// Where no backend was built for any format, a search finds nothing,
/// whatever is reported to it.
pub proof fn lemma_nothing_built_nothing_found(
    hardware: Seq<Option<ProbeReport>>,
    h264: Seq<Option<ProbeReport>>,
    h265: Seq<Option<ProbeReport>>,
)
    ensures
        discovered(
            Seq::empty(),
            Seq::empty(),
            Seq::empty(),
            Seq::empty(),
            hardware,
            h264,
            h265,
        ) == Seq::<FeatureContext>::empty(),
{
    let none = Seq::<InnerEncodeContext>::empty();
    assert(probe_inputs(Driver::NV, none) + probe_inputs(Driver::AMF, none) + probe_inputs(
        Driver::MFX,
        none,
    ) == Seq::<FeatureContext>::empty());
    lemma_filter_none(none, built_for(DataFormat::H264));
    lemma_filter_none(none, built_for(DataFormat::H265));
    assert(fallback_inputs(none, DataFormat::H264) == Seq::<FeatureContext>::empty());
    assert(fallback_inputs(none, DataFormat::H265) == Seq::<FeatureContext>::empty());
    lemma_collected_nothing(hardware);
    lemma_collected_nothing(h264);
    lemma_collected_nothing(h265);
}

/// A report that is not believed counts as no report: the search goes on
/// as if its probe had not finished, and nothing of it reaches the result.
/// A report is not believed if it counts more adapters than the buffer has
/// room for, or fewer than none, or if the backend's status is not zero.
pub proof fn lemma_rejected_report_counts_as_none(
    prober: ProberView,
    reports: Seq<Option<ProbeReport>>,
    i: int,
)
    requires
        0 <= i < reports.len(),
        reports[i] is Some,
        reports[i]->0.desc_count > MAX_ADAPTERS || reports[i]->0.desc_count < 0
            || reports[i]->0.status != 0,
    ensures
        prober.advance(reports) == prober.advance(reports.update(i, None)),
{
    lemma_rejected_report_adds_nothing(prober.inputs, reports, i);
}

/// In every batch, the probes that must not run beside each other are
/// exactly those of the first hardware backend and of the fallback, and
/// every probe calls a backend's test function.
pub proof fn lemma_serialized_probes(prober: ProberView, i: int)
    requires
        0 <= i < prober.batch().tasks.len(),
    ensures
        prober.batch().tasks[i].serialized <==> prober.batch().tasks[i].entry.driver == Driver::NV
            || prober.batch().tasks[i].entry.driver == Driver::FFMPEG,
        prober.batch().tasks[i].entry.function == Native::TestEncode,
{
}

} // verus!
