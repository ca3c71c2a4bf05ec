//! Probing: whether a backend can encode a format here, and on which
//! adapters.
//!
//! A probe is one call of a backend's test function. The library says
//! which probes to run and reads their reports; the application runs them,
//! each on a thread of its own.

use crate::common::AdapterDesc;
use crate::vram::inner::EntryPoint;
use crate::vram::{FeatureContext, MAX_ADAPTERS, UNRESOLVED_LUID};
use vstd::prelude::*;

verus! {

/// One probe: the backend and format to try.
#[derive(Clone, Copy, Debug, PartialEq, Eq, Hash)]
pub struct ProbeTask {
    /// The native test function to call.
    pub entry: EntryPoint,
    /// Whether the call must be made under the lock that all such probes
    /// share.
    pub serialized: bool,
    pub api: i32,
    /// The format, as the backends number it.
    pub data_format: i32,
}

/// The probes to run together, with the arguments they share.
///
/// The probes may run at the same time, except that at most one of those
/// marked `serialized` may be inside its native call at any moment. The
/// shared arguments go to each backend as they are.
#[derive(Debug, PartialEq, Eq)]
pub struct ProbeBatch {
    pub tasks: Vec<ProbeTask>,
    /// The adapter identities to hand to the backend, as they are.
    pub luid_range: Vec<i64>,
    /// The room in the descriptor buffer to hand to the backend.
    pub max_count: i32,
    pub width: i32,
    pub height: i32,
    pub kbitrate: i32,
    pub framerate: i32,
    pub gop: i32,
}

/// A batch as a mathematical value.
pub struct ProbeBatchView {
    pub tasks: Seq<ProbeTask>,
    pub luid_range: Seq<i64>,
    pub max_count: i32,
    pub width: i32,
    pub height: i32,
    pub kbitrate: i32,
    pub framerate: i32,
    pub gop: i32,
}

impl View for ProbeBatch {
    type V = ProbeBatchView;

    open spec fn view(&self) -> ProbeBatchView {
        ProbeBatchView {
            tasks: self.tasks@,
            luid_range: self.luid_range@,
            max_count: self.max_count,
            width: self.width,
            height: self.height,
            kbitrate: self.kbitrate,
            framerate: self.framerate,
            gop: self.gop,
        }
    }
}

/// What a backend's test function gave back: its status, the number of
/// adapters it says it wrote, and the descriptor buffer.
#[derive(Clone, Copy, Debug, PartialEq, Eq)]
pub struct ProbeReport {
    pub status: i32,
    pub desc_count: i32,
    pub descs: [AdapterDesc; MAX_ADAPTERS],
}

impl ProbeReport {
    /// Whether the report is believed: the backend succeeded and counts no
    /// more adapters than the buffer holds.
    pub open spec fn spec_accepted(&self) -> bool {
        self.status == 0 && 0 <= self.desc_count <= MAX_ADAPTERS
    }

    /// Whether the report is believed.
    #[verifier::when_used_as_spec(spec_accepted)]
    pub fn accepted(&self) -> (r: bool)
        ensures
            r == self.spec_accepted(),
    {
        self.status == 0 && 0 <= self.desc_count && self.desc_count as usize <= MAX_ADAPTERS
    }

    /// The adapter identities in the descriptors that a believed report
    /// counts, in the buffer's order; none if the report is not believed.
    pub open spec fn counted(&self) -> Seq<i64> {
        if self.spec_accepted() {
            Seq::new(self.desc_count as nat, |j: int| self.descs[j].luid)
        } else {
            Seq::empty()
        }
    }

    /// The adapters that the report names: the counted identities but for
    /// the one that stands for "unresolved", which names no adapter.
    pub open spec fn luids(&self) -> Seq<i64> {
        self.counted().filter(names_an_adapter())
    }
}

/// The test of an identity for naming an adapter.
pub open spec fn names_an_adapter() -> spec_fn(i64) -> bool {
    |luid: i64| luid != UNRESOLVED_LUID
}

/// The report of the probe at `i`. A probe that did not finish has none,
/// and neither has one that `reports` does not reach.
pub open spec fn report_at(reports: Seq<Option<ProbeReport>>, i: int) -> Option<ProbeReport> {
    if 0 <= i < reports.len() {
        reports[i]
    } else {
        None
    }
}

/// `input`, once for each adapter in `luids`.
pub open spec fn on_adapters(input: FeatureContext, luids: Seq<i64>) -> Seq<FeatureContext> {
    luids.map_values(|luid: i64| FeatureContext { luid, ..input })
}

/// What one probe found: `input` on each adapter its report names.
pub open spec fn resolved(input: FeatureContext, report: Option<ProbeReport>) -> Seq<
    FeatureContext,
> {
    match report {
        Some(r) => on_adapters(input, r.luids()),
        None => Seq::empty(),
    }
}

/// What a batch found: the findings of its probes, in the order of the
/// probes.
pub open spec fn collected(
    inputs: Seq<FeatureContext>,
    reports: Seq<Option<ProbeReport>>,
) -> Seq<FeatureContext> {
    Seq::new(inputs.len(), |i: int| resolved(inputs[i], report_at(reports, i))).flatten()
}

/// Appends to `found` what the probe of `input` found.
fn resolve(found: &mut Vec<FeatureContext>, input: FeatureContext, report: &Option<ProbeReport>)
    ensures
        final(found)@ == old(found)@ + resolved(input, *report),
{
    match report {
        Some(r) => {
            if r.accepted() {
                let count: usize = r.desc_count as usize;
                let mut j: usize = 0;
                while j < count
                    invariant
                        j <= count,
                        count == r.desc_count,
                        r.spec_accepted(),
                        found@ == old(found)@ + on_adapters(
                            input,
                            r.counted().take(j as int).filter(names_an_adapter()),
                        ),
                    decreases count - j,
                {
                    let luid = r.descs[j].luid;
                    if luid != UNRESOLVED_LUID {
                        found.push(FeatureContext { luid, ..input });
                    }
                    proof {
                        let before = r.counted().take(j as int);
                        assert(r.counted().take(j + 1) == before.push(luid));
                        before.lemma_filter_push(luid, names_an_adapter());
                        assert(on_adapters(input, before.filter(names_an_adapter()).push(luid))
                            == on_adapters(input, before.filter(names_an_adapter())).push(
                            FeatureContext { luid, ..input },
                        ));
                    }
                    j += 1;
                }
                assert(r.counted().take(count as int) == r.counted());
            } else {
                assert(r.luids() == Seq::<i64>::empty()) by {
                    lemma_filter_of_nothing(names_an_adapter());
                }
                assert(on_adapters(input, Seq::empty()) == Seq::<FeatureContext>::empty());
            }
        },
        None => {},
    }
}

/// A filter finds nothing where there is nothing.
pub(crate) proof fn lemma_filter_of_nothing<A>(pred: spec_fn(A) -> bool)
    ensures
        Seq::<A>::empty().filter(pred) == Seq::<A>::empty(),
{
    reveal(Seq::filter);
}

/// Appends to `found` what the probes of `inputs` found.
pub fn collect(
    found: &mut Vec<FeatureContext>,
    inputs: &Vec<FeatureContext>,
    reports: &Vec<Option<ProbeReport>>,
)
    ensures
        final(found)@ == old(found)@ + collected(inputs@, reports@),
{
    let ghost each = |i: int| resolved(inputs@[i], report_at(reports@, i));
    let mut i: usize = 0;
    while i < inputs.len()
        invariant
            i <= inputs.len(),
            each == |i: int| resolved(inputs@[i], report_at(reports@, i)),
            found@ == old(found)@ + Seq::new(i as nat, each).flatten(),
        decreases inputs.len() - i,
    {
        let none: Option<ProbeReport> = None;
        let report = if i < reports.len() {
            &reports[i]
        } else {
            &none
        };
        resolve(found, inputs[i], report);
        proof {
            let before = Seq::new(i as nat, each);
            assert(Seq::new((i + 1) as nat, each) == before.push(each(i as int)));
            before.lemma_flatten_push(each(i as int));
        }
        i += 1;
    }
}

/// One more probe adds its findings at the end.
pub(crate) proof fn lemma_collected_push(
    inputs: Seq<FeatureContext>,
    input: FeatureContext,
    reports: Seq<Option<ProbeReport>>,
)
    ensures
        collected(inputs.push(input), reports) == collected(inputs, reports) + resolved(
            input,
            report_at(reports, inputs.len() as int),
        ),
{
    let longer = inputs.push(input);
    let each = |i: int| resolved(inputs[i], report_at(reports, i));
    let each_longer = |i: int| resolved(longer[i], report_at(reports, i));
    let parts = Seq::new(inputs.len(), each);
    assert(Seq::new(longer.len(), each_longer) == parts.push(
        resolved(input, report_at(reports, inputs.len() as int)),
    ));
    parts.lemma_flatten_push(resolved(input, report_at(reports, inputs.len() as int)));
}

/// What holds of all that each probe found holds of all that the batch
/// found.
pub(crate) proof fn lemma_collected_all(
    inputs: Seq<FeatureContext>,
    reports: Seq<Option<ProbeReport>>,
    holds: spec_fn(FeatureContext) -> bool,
)
    requires
        forall|i: int, j: int|
            0 <= i < inputs.len() && 0 <= j < resolved(inputs[i], report_at(reports, i)).len()
                ==> holds(#[trigger] resolved(inputs[i], report_at(reports, i))[j]),
    ensures
        forall|k: int|
            0 <= k < collected(inputs, reports).len() ==> holds(
                #[trigger] collected(inputs, reports)[k],
            ),
    decreases inputs.len(),
{
    if inputs.len() == 0 {
        assert(Seq::new(0, |i: int| resolved(inputs[i], report_at(reports, i)))
            == Seq::<Seq<FeatureContext>>::empty());
    } else {
        let front = inputs.drop_last();
        let last = inputs.len() - 1;
        assert(inputs == front.push(inputs.last()));
        lemma_collected_push(front, inputs.last(), reports);
        assert forall|i: int, j: int|
            0 <= i < front.len() && 0 <= j < resolved(front[i], report_at(reports, i)).len()
            implies holds(#[trigger] resolved(front[i], report_at(reports, i))[j]) by {
            assert(front[i] == inputs[i]);
        }
        lemma_collected_all(front, reports, holds);
        let tail = resolved(inputs[last], report_at(reports, last));
        assert forall|k: int| 0 <= k < collected(inputs, reports).len() implies holds(
            #[trigger] collected(inputs, reports)[k],
        ) by {
            if k >= collected(front, reports).len() {
                assert(collected(inputs, reports)[k] == tail[k - collected(front, reports).len()]);
            }
        }
    }
}

/// No probe, no finding.
pub(crate) proof fn lemma_collected_nothing(reports: Seq<Option<ProbeReport>>)
    ensures
        collected(Seq::empty(), reports) == Seq::<FeatureContext>::empty(),
{
    let inputs = Seq::<FeatureContext>::empty();
    assert(Seq::new(0, |i: int| resolved(inputs[i], report_at(reports, i))) == Seq::<
        Seq<FeatureContext>,
    >::empty());
}

/// A batch finds what its probes found and nothing else: a context is
/// among the findings of the batch exactly if it is among those of one of
/// its probes.
pub proof fn lemma_collected_is_what_was_reported(
    inputs: Seq<FeatureContext>,
    reports: Seq<Option<ProbeReport>>,
    e: FeatureContext,
)
    ensures
        collected(inputs, reports).contains(e) <==> exists|i: int|
            0 <= i < inputs.len() && (#[trigger] resolved(
                inputs[i],
                report_at(reports, i),
            )).contains(e),
    decreases inputs.len(),
{
    broadcast use vstd::seq_lib::group_seq_properties;

    if inputs.len() == 0 {
        lemma_collected_nothing(reports);
        assert(inputs == Seq::<FeatureContext>::empty());
    } else {
        let front = inputs.drop_last();
        let last = inputs.len() - 1;
        let tail = resolved(inputs[last], report_at(reports, last));
        assert(inputs == front.push(inputs.last()));
        lemma_collected_push(front, inputs.last(), reports);
        lemma_collected_is_what_was_reported(front, reports, e);
        if collected(inputs, reports).contains(e) {
            if tail.contains(e) {
            } else {
                let i = choose|i: int|
                    0 <= i < front.len() && (#[trigger] resolved(
                        front[i],
                        report_at(reports, i),
                    )).contains(e);
                assert(front[i] == inputs[i]);
            }
        }
        if exists|i: int|
            0 <= i < inputs.len() && (#[trigger] resolved(
                inputs[i],
                report_at(reports, i),
            )).contains(e) {
            let i = choose|i: int|
                0 <= i < inputs.len() && (#[trigger] resolved(
                    inputs[i],
                    report_at(reports, i),
                )).contains(e);
            if i < last {
                assert(front[i] == inputs[i]);
                assert(resolved(front[i], report_at(reports, i)).contains(e));
            }
        }
    }
}

/// Every context that a batch finds is tied to an adapter, whatever the
/// backends report.
pub proof fn lemma_collected_are_resolved(
    inputs: Seq<FeatureContext>,
    reports: Seq<Option<ProbeReport>>,
)
    ensures
        forall|k: int|
            0 <= k < collected(inputs, reports).len() ==> (#[trigger] collected(
                inputs,
                reports,
            )[k]).spec_is_resolved(),
{
    let is_resolved = |e: FeatureContext| e.spec_is_resolved();
    assert forall|i: int, j: int|
        0 <= i < inputs.len() && 0 <= j < resolved(inputs[i], report_at(reports, i)).len()
        implies is_resolved(#[trigger] resolved(inputs[i], report_at(reports, i))[j]) by {
        let r = report_at(reports, i)->0;
        r.counted().lemma_filter_pred(names_an_adapter(), j);
    }
    lemma_collected_all(inputs, reports, is_resolved);
}

/// A descriptor that holds the identity that stands for "unresolved" names
/// no adapter: the report finds what it would find without that
/// descriptor, and the other descriptors it counts are kept.
pub proof fn lemma_unresolved_descriptor_is_skipped(report: ProbeReport, j: int)
    requires
        report.spec_accepted(),
        0 <= j < report.desc_count,
        report.descs[j].luid == UNRESOLVED_LUID,
    ensures
        report.luids() == report.counted().remove(j).filter(names_an_adapter()),
{
    let all = report.counted();
    let front = all.take(j);
    let back = all.skip(j + 1);
    assert(all == front.push(all[j]) + back);
    assert(all.remove(j) == front + back);
    front.lemma_filter_push(all[j], names_an_adapter());
    Seq::filter_distributes_over_add(front.push(all[j]), back, names_an_adapter());
    Seq::filter_distributes_over_add(front, back, names_an_adapter());
}

/// A report that is not believed counts as no report: its probe adds
/// nothing to what the batch finds. A report is not believed if it counts
/// more adapters than the buffer has room for, or fewer than none, or if
/// the backend's status is not zero.
pub proof fn lemma_rejected_report_adds_nothing(
    inputs: Seq<FeatureContext>,
    reports: Seq<Option<ProbeReport>>,
    i: int,
)
    requires
        0 <= i < reports.len(),
        reports[i] is Some,
        reports[i]->0.desc_count > MAX_ADAPTERS || reports[i]->0.desc_count < 0
            || reports[i]->0.status != 0,
    ensures
        collected(inputs, reports) == collected(inputs, reports.update(i, None)),
{
    let without = reports.update(i, None);
    assert forall|k: int| 0 <= k < inputs.len() implies resolved(inputs[k], report_at(reports, k))
        == resolved(inputs[k], report_at(without, k)) by {
        if k == i {
            lemma_filter_of_nothing(names_an_adapter());
            assert(on_adapters(inputs[k], Seq::empty()) == Seq::<FeatureContext>::empty());
        }
    }
    assert(Seq::new(inputs.len(), |k: int| resolved(inputs[k], report_at(reports, k)))
        == Seq::new(inputs.len(), |k: int| resolved(inputs[k], report_at(without, k))));
}

} // verus!
